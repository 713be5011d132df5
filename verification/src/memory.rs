//! How much memory the system has, and what that means for the size of batches.
use crate::text::{chars_of, is_space, is_space_char, parse_number, parse_trimmed, parsed_number};
use crate::text::{decimal, law_decimal_round_trip, law_only_digits_are_read};
use crate::text::{law_sign_of_a_numeral, same_text, trimmed};
use vstd::prelude::*;

verus! {

/// The memory that is assumed where the system does not tell, in gigabytes.
pub const DEFAULT_MEMORY_GB: usize = 16;

/// The batch size that stands for the choice of this library.
pub const DEFAULT_BATCH_SIZE: usize = 100;

/// The number of workers that stands for the choice of this library.
pub const DEFAULT_WORKERS: usize = 4;

/// What the system tells of its memory.
pub enum MemoryText<'a> {
    /// The text of `/proc/meminfo`.
    MemInfo(&'a str),
    /// The number of bytes, as `sysctl` prints it.
    Sysctl(&'a str),
    /// Nothing.
    Unknown,
}

/// `s` from its first character on for which `is_space` has the value `space`.
pub open spec fn skip_while(s: Seq<char>, space: bool) -> Seq<char>
    decreases s.len(),
{
    if s.len() > 0 && is_space(s[0]) == space {
        skip_while(s.drop_first(), space)
    } else {
        s
    }
}

/// The characters of `s` up to its first white space.
pub open spec fn first_word(s: Seq<char>) -> Seq<char> {
    s.take(s.len() - skip_while(s, false).len())
}

/// The second of the words of `s` that white space parts; empty if there is none.
pub open spec fn second_word(s: Seq<char>) -> Seq<char> {
    first_word(skip_while(skip_while(skip_while(s, true), false), true))
}

/// The kilobytes in a line about the total memory.
pub open spec fn line_kilobytes(line: Seq<char>) -> Option<nat> {
    let label = "MemTotal:"@;
    if line.len() >= label.len() && line.take(label.len() as int) == label {
        parsed_number(second_word(line), u64::MAX as nat)
    } else {
        None
    }
}

/// The number of characters before the first line break.
pub open spec fn line_len(s: Seq<char>) -> nat
    decreases s.len(),
{
    if s.len() == 0 || s[0] == '\n' {
        0
    } else {
        1 + line_len(s.drop_first())
    }
}

/// The kilobytes in the first line of `s` that tells the total memory.
pub open spec fn meminfo_kilobytes(s: Seq<char>) -> Option<nat>
    decreases s.len(),
{
    let n = line_len(s) as int;
    match line_kilobytes(s.take(n)) {
        Some(kb) => Some(kb),
        None => if n < s.len() {
            meminfo_kilobytes(s.skip(n + 1))
        } else {
            None
        },
    }
}

/// The memory in gigabytes that a text tells of.
pub open spec fn memory_gb(text: MemoryText) -> Option<nat> {
    match text {
        MemoryText::MemInfo(s) => match meminfo_kilobytes(s@) {
            Some(kb) => Some(kb / 1024 / 1024),
            None => None,
        },
        MemoryText::Sysctl(s) => match parsed_number(trimmed(s@), u64::MAX as nat) {
            Some(bytes) => Some(bytes / 1024 / 1024 / 1024),
            None => None,
        },
        MemoryText::Unknown => None,
    }
}

fn skip_from(chars: &Vec<char>, from: usize, end: usize, space: bool) -> (r: usize)
    requires
        from <= end <= chars@.len(),
    ensures
        from <= r <= end,
        chars@.subrange(r as int, end as int) == skip_while(
            chars@.subrange(from as int, end as int),
            space,
        ),
{
    let mut i: usize = from;
    while i < end && is_space_char(chars[i]) == space
        invariant
            from <= i <= end <= chars@.len(),
            skip_while(chars@.subrange(from as int, end as int), space) == skip_while(
                chars@.subrange(i as int, end as int),
                space,
            ),
        decreases end - i,
    {
        assert(chars@.subrange(i as int, end as int).drop_first() =~= chars@.subrange(
            i + 1,
            end as int,
        ));
        i = i + 1;
    }
    i
}

fn has_label(chars: &Vec<char>, start: usize, end: usize) -> (r: bool)
    requires
        start <= end <= chars@.len(),
    ensures
        r == ({
            let line = chars@.subrange(start as int, end as int);
            let label = "MemTotal:"@;
            line.len() >= label.len() && line.take(label.len() as int) == label
        }),
{
    let label = chars_of("MemTotal:");
    let n: usize = label.len();
    let ghost line = chars@.subrange(start as int, end as int);
    if end - start < n {
        return false;
    }
    let mut i: usize = 0;
    while i < n
        invariant
            i <= n == label@.len(),
            n <= end - start,
            start <= end <= chars@.len(),
            label@ == "MemTotal:"@,
            line == chars@.subrange(start as int, end as int),
            forall|j: int| 0 <= j < i ==> line[j] == label@[j],
        decreases n - i,
    {
        if chars[start + i] != label[i] {
            assert(line.take(n as int)[i as int] != label@[i as int]);
            return false;
        }
        i = i + 1;
    }
    assert(line.take(n as int) =~= label@);
    true
}

fn kilobytes_in(chars: &Vec<char>, start: usize, end: usize) -> (r: Option<u64>)
    requires
        start <= end <= chars@.len(),
    ensures
        match r {
            Some(kb) => line_kilobytes(chars@.subrange(start as int, end as int)) == Some(kb as nat),
            None => line_kilobytes(chars@.subrange(start as int, end as int)) is None,
        },
{
    if !has_label(chars, start, end) {
        return None;
    }
    let a: usize = skip_from(chars, start, end, true);
    let b: usize = skip_from(chars, a, end, false);
    let c: usize = skip_from(chars, b, end, true);
    let d: usize = skip_from(chars, c, end, false);
    proof {
        let rest = chars@.subrange(c as int, end as int);
        assert(chars@.subrange(c as int, d as int) =~= first_word(rest)) by {
            assert(skip_while(rest, false).len() == end - d);
        }
    }
    parse_number(chars, c, d, u64::MAX)
}

fn line_end(chars: &Vec<char>, start: usize) -> (r: usize)
    requires
        start <= chars@.len(),
    ensures
        start <= r <= chars@.len(),
        r - start == line_len(chars@.skip(start as int)),
{
    let n: usize = chars.len();
    let mut i: usize = start;
    while i < n && chars[i] != '\n'
        invariant
            start <= i <= n == chars@.len(),
            line_len(chars@.skip(start as int)) == i - start + line_len(chars@.skip(i as int)),
        decreases n - i,
    {
        assert(chars@.skip(i as int).drop_first() =~= chars@.skip(i + 1));
        i = i + 1;
    }
    i
}

fn meminfo_total(text: &str) -> (r: Option<u64>)
    ensures
        match r {
            Some(kb) => meminfo_kilobytes(text@) == Some(kb as nat),
            None => meminfo_kilobytes(text@) is None,
        },
{
    let chars = chars_of(text);
    let n: usize = chars.len();
    let mut start: usize = 0;
    assert(chars@.skip(0) =~= text@);
    loop
        invariant
            start <= n == chars@.len(),
            chars@ == text@,
            meminfo_kilobytes(text@) == meminfo_kilobytes(chars@.skip(start as int)),
        decreases n - start,
    {
        let end: usize = line_end(&chars, start);
        assert(chars@.subrange(start as int, end as int) =~= chars@.skip(start as int).take(
            end - start,
        ));
        match kilobytes_in(&chars, start, end) {
            Some(kb) => return Some(kb),
            None => {},
        }
        if end >= n {
            return None;
        }
        assert(chars@.skip(start as int).skip(end - start + 1) =~= chars@.skip(end + 1));
        start = end + 1;
    }
}

/// The memory of the system in gigabytes, or an assumption where it does not tell.
pub fn estimate_available_memory_gb(text: MemoryText<'_>) -> (r: usize)
    ensures
        r == match memory_gb(text) {
            Some(gb) => gb as usize,
            None => DEFAULT_MEMORY_GB,
        },
        text is Unknown ==> r == 16,
{
    match text {
        MemoryText::MemInfo(s) => match meminfo_total(s) {
            Some(kb) => (kb / 1024 / 1024) as usize,
            None => DEFAULT_MEMORY_GB,
        },
        MemoryText::Sysctl(s) => match parse_trimmed(s, u64::MAX) {
            Some(bytes) => (bytes / 1024 / 1024 / 1024) as usize,
            None => DEFAULT_MEMORY_GB,
        },
        MemoryText::Unknown => DEFAULT_MEMORY_GB,
    }
}

/// The batch size for the given memory. The models of Ollama are more stable with smaller batches.
pub open spec fn batch_size_for(memory_gb: nat, ollama: bool) -> usize {
    if ollama {
        if memory_gb >= 96 {
            64
        } else if memory_gb >= 64 {
            48
        } else if memory_gb >= 32 {
            32
        } else if memory_gb >= 16 {
            24
        } else {
            16
        }
    } else {
        if memory_gb >= 128 {
            256
        } else if memory_gb >= 64 {
            128
        } else if memory_gb >= 32 {
            64
        } else if memory_gb >= 16 {
            32
        } else {
            16
        }
    }
}

/// The number of workers for the given memory.
pub open spec fn workers_for(memory_gb: nat) -> usize {
    if memory_gb >= 128 {
        16
    } else if memory_gb >= 96 {
        14
    } else if memory_gb >= 64 {
        12
    } else if memory_gb >= 48 {
        10
    } else if memory_gb >= 32 {
        8
    } else if memory_gb >= 16 {
        6
    } else {
        4
    }
}

/// What batch size and number of workers the asked ones turn into: each one only where it is the default.
pub open spec fn optimized(
    memory_gb: nat,
    batch_size: usize,
    workers: usize,
    provider: Seq<char>,
) -> (usize, usize) {
    (
        if batch_size == DEFAULT_BATCH_SIZE {
            batch_size_for(memory_gb, provider == "ollama"@)
        } else {
            batch_size
        },
        if workers == DEFAULT_WORKERS {
            workers_for(memory_gb)
        } else {
            workers
        },
    )
}

/// Chooses batch size and number of workers by memory and embedding provider, where the user did not.
pub fn optimize_for_memory(
    memory_gb: usize,
    default_batch_size: usize,
    default_workers: usize,
    embedding_provider: &str,
) -> (r: (usize, usize))
    ensures
        r == optimized(memory_gb as nat, default_batch_size, default_workers, embedding_provider@),
        default_batch_size != 100 ==> r.0 == default_batch_size,
        default_workers != 4 ==> r.1 == default_workers,
{
    let batch_size: usize = if default_batch_size == DEFAULT_BATCH_SIZE {
        if same_text(embedding_provider, "ollama") {
            match memory_gb {
                96.. => 64,
                64..=95 => 48,
                32..=63 => 32,
                16..=31 => 24,
                _ => 16,
            }
        } else {
            match memory_gb {
                128.. => 256,
                64..=127 => 128,
                32..=63 => 64,
                16..=31 => 32,
                _ => 16,
            }
        }
    } else {
        default_batch_size
    };
    let workers: usize = if default_workers == DEFAULT_WORKERS {
        match memory_gb {
            128.. => 16,
            96..=127 => 14,
            64..=95 => 12,
            48..=63 => 10,
            32..=47 => 8,
            16..=31 => 6,
            _ => 4,
        }
    } else {
        default_workers
    };
    (batch_size, workers)
}

/// What the user chose is left alone.
pub proof fn law_user_choice_is_kept(
    memory_gb: nat,
    batch_size: usize,
    workers: usize,
    provider: Seq<char>,
)
    ensures
        batch_size != DEFAULT_BATCH_SIZE ==> optimized(memory_gb, batch_size, workers, provider).0
            == batch_size,
        workers != DEFAULT_WORKERS ==> optimized(memory_gb, batch_size, workers, provider).1
            == workers,
{
}

/// More memory never means smaller batches or fewer workers.
pub proof fn law_more_memory_never_less(
    less: nat,
    more: nat,
    batch_size: usize,
    workers: usize,
    provider: Seq<char>,
)
    requires
        less <= more,
    ensures
        optimized(less, batch_size, workers, provider).0 <= optimized(
            more,
            batch_size,
            workers,
            provider,
        ).0,
        optimized(less, batch_size, workers, provider).1 <= optimized(
            more,
            batch_size,
            workers,
            provider,
        ).1,
{
}

/// With the same memory, Ollama never gets larger batches than another provider.
pub proof fn law_ollama_batches_are_smaller(memory_gb: nat)
    ensures
        batch_size_for(memory_gb, true) <= batch_size_for(memory_gb, false),
{
}

/// A batch size that is left to this library is a power of two just above the memory in gigabytes, but
/// at least 16 and at most 256. For Ollama it grows by eight with every 16 gigabytes at first, and by 16
/// with every 32 gigabytes from 32 on, up to 64.
pub proof fn law_batch_size_by_memory(memory_gb: nat, workers: usize, provider: Seq<char>)
    ensures
        ({
            let batch = optimized(memory_gb, 100, workers, provider).0;
            let ollama = provider == seq!['o', 'l', 'l', 'a', 'm', 'a'];
            &&& !ollama && memory_gb < 16 ==> batch == 16
            &&& !ollama && 16 <= memory_gb < 128 ==> memory_gb < batch <= 2 * memory_gb && (batch == 32
                || batch == 64 || batch == 128)
            &&& !ollama && memory_gb >= 128 ==> batch == 256
            &&& ollama && memory_gb < 32 ==> batch == 16 + 8 * (memory_gb / 16)
            &&& ollama && 32 <= memory_gb < 96 ==> batch == 16 * (memory_gb / 32 + 1)
            &&& ollama && memory_gb >= 96 ==> batch == 64
        }),
{
    reveal_strlit("ollama");
    assert("ollama"@ =~= seq!['o', 'l', 'l', 'a', 'm', 'a']);
}

/// A number of workers that is left to this library grows by two with every 16 gigabytes up to 64, and
/// with every 32 gigabytes from there on, up to 16 workers.
pub proof fn law_workers_by_memory(memory_gb: nat, batch_size: usize, provider: Seq<char>)
    ensures
        ({
            let workers = optimized(memory_gb, batch_size, 4, provider).1;
            &&& memory_gb < 64 ==> workers == 4 + 2 * (memory_gb / 16)
            &&& 64 <= memory_gb < 128 ==> workers == 8 + 2 * (memory_gb / 32)
            &&& memory_gb >= 128 ==> workers == 16
        }),
{
}

/// Batch size and number of workers do not depend on each other.
pub proof fn law_choices_are_independent(
    memory_gb: nat,
    batch_size: usize,
    other_batch_size: usize,
    workers: usize,
    other_workers: usize,
    provider: Seq<char>,
    other_provider: Seq<char>,
)
    ensures
        optimized(memory_gb, batch_size, workers, provider).0 == optimized(
            memory_gb,
            batch_size,
            other_workers,
            provider,
        ).0,
        optimized(memory_gb, batch_size, workers, provider).1 == optimized(
            memory_gb,
            other_batch_size,
            workers,
            other_provider,
        ).1,
{
}

proof fn lemma_skip_prefix(a: Seq<char>, b: Seq<char>, space: bool)
    requires
        forall|i: int| 0 <= i < a.len() ==> is_space(#[trigger] a[i]) == space,
        b.len() > 0 ==> is_space(b[0]) != space,
    ensures
        skip_while(a + b, space) == b,
    decreases a.len(),
{
    if a.len() == 0 {
        assert(a + b =~= b);
    } else {
        assert((a + b)[0] == a[0]);
        assert((a + b).drop_first() =~= a.drop_first() + b);
        assert forall|i: int| 0 <= i < a.drop_first().len() implies is_space(
            #[trigger] a.drop_first()[i],
        ) == space by {
            assert(a.drop_first()[i] == a[i + 1]);
        }
        lemma_skip_prefix(a.drop_first(), b, space);
    }
}

/// A line whose first word starts with the label of the total memory tells the number that its second word is,
/// if it is one, whatever white space stands between them and whatever follows.
pub proof fn law_second_word_tells(
    glued: Seq<char>,
    gap: Seq<char>,
    word: Seq<char>,
    end: Seq<char>,
)
    requires
        forall|i: int| 0 <= i < glued.len() ==> !is_space(#[trigger] glued[i]),
        gap.len() > 0,
        forall|i: int| 0 <= i < gap.len() ==> is_space(#[trigger] gap[i]),
        word.len() > 0,
        forall|i: int| 0 <= i < word.len() ==> !is_space(#[trigger] word[i]),
        end.len() > 0 ==> is_space(end[0]),
    ensures
        line_kilobytes("MemTotal:"@ + glued + gap + word + end) == parsed_number(
            word,
            u64::MAX as nat,
        ),
{
    reveal_strlit("MemTotal:");
    let label = "MemTotal:"@;
    let first = label + glued;
    let line = label + glued + gap + word + end;
    assert(line.take(9) =~= label);
    assert(!is_space(line[0]));
    assert(skip_while(line, true) == line);
    assert forall|i: int| 0 <= i < first.len() implies is_space(#[trigger] first[i]) == false by {
        if i >= 9 {
            assert(first[i] == glued[i - 9]);
        }
    }
    assert(first + (gap + word + end) =~= line);
    assert((gap + word + end)[0] == gap[0]);
    lemma_skip_prefix(first, gap + word + end, false);
    assert(gap + (word + end) =~= gap + word + end);
    assert((word + end)[0] == word[0]);
    lemma_skip_prefix(gap, word + end, true);
    lemma_skip_prefix(word, end, false);
    assert(first_word(word + end) =~= word);
}

/// A line of one word tells nothing, whatever white space stands behind it.
pub proof fn law_one_word_tells_nothing(glued: Seq<char>, gap: Seq<char>)
    requires
        forall|i: int| 0 <= i < glued.len() ==> !is_space(#[trigger] glued[i]),
        forall|i: int| 0 <= i < gap.len() ==> is_space(#[trigger] gap[i]),
    ensures
        line_kilobytes("MemTotal:"@ + glued + gap) is None,
{
    reveal_strlit("MemTotal:");
    let label = "MemTotal:"@;
    let first = label + glued;
    let line = label + glued + gap;
    let none = Seq::<char>::empty();
    assert(line.take(9) =~= label);
    assert(!is_space(line[0]));
    assert(skip_while(line, true) == line);
    assert forall|i: int| 0 <= i < first.len() implies is_space(#[trigger] first[i]) == false by {
        if i >= 9 {
            assert(first[i] == glued[i - 9]);
        }
    }
    lemma_skip_prefix(first, gap, false);
    assert(gap + none =~= gap);
    lemma_skip_prefix(gap, none, true);
    assert(first_word(none) =~= none);
    law_only_digits_are_read(none, u64::MAX as nat);
}

/// A line with the label of the total memory, white space, a numeral, and nothing or white space and
/// anything else behind it tells that many kilobytes.
pub proof fn law_line_tells_kilobytes(gap: Seq<char>, kb: nat, end: Seq<char>)
    requires
        gap.len() > 0,
        forall|i: int| 0 <= i < gap.len() ==> is_space(#[trigger] gap[i]),
        end.len() > 0 ==> is_space(end[0]),
        kb <= u64::MAX,
    ensures
        line_kilobytes("MemTotal:"@ + gap + decimal(kb) + end) == Some(kb),
{
    let none = Seq::<char>::empty();
    let number = decimal(kb);
    law_decimal_round_trip(kb, u64::MAX as nat);
    law_only_digits_are_read(number, u64::MAX as nat);
    law_sign_of_a_numeral(kb);
    assert("MemTotal:"@ + none =~= "MemTotal:"@);
    law_second_word_tells(none, gap, number, end);
}

/// A line that does not start with the label of the total memory tells nothing.
pub proof fn law_other_lines_tell_nothing(line: Seq<char>)
    requires
        line.len() < 9 || line.take(9) != seq!['M', 'e', 'm', 'T', 'o', 't', 'a', 'l', ':'],
    ensures
        line_kilobytes(line) is None,
{
    reveal_strlit("MemTotal:");
    assert("MemTotal:"@ =~= seq!['M', 'e', 'm', 'T', 'o', 't', 'a', 'l', ':']);
}

proof fn lemma_line_len(line: Seq<char>, rest: Seq<char>)
    requires
        forall|i: int| 0 <= i < line.len() ==> #[trigger] line[i] != '\n',
        rest.len() > 0 ==> rest[0] == '\n',
    ensures
        line_len(line + rest) == line.len(),
    decreases line.len(),
{
    if line.len() == 0 {
        assert(line + rest =~= rest);
    } else {
        assert((line + rest)[0] == line[0]);
        assert((line + rest).drop_first() =~= line.drop_first() + rest);
        assert forall|i: int| 0 <= i < line.drop_first().len() implies #[trigger] line.drop_first()[i]
            != '\n' by {
            assert(line.drop_first()[i] == line[i + 1]);
        }
        lemma_line_len(line.drop_first(), rest);
    }
}

/// The first line that tells the total memory decides, and lines before it that do not are passed over.
pub proof fn law_first_telling_line_decides(line: Seq<char>, rest: Seq<char>)
    requires
        forall|i: int| 0 <= i < line.len() ==> #[trigger] line[i] != '\n',
    ensures
        meminfo_kilobytes(line) == line_kilobytes(line),
        line_kilobytes(line) is Some ==> meminfo_kilobytes(line + seq!['\n'] + rest)
            == line_kilobytes(line),
        line_kilobytes(line) is None ==> meminfo_kilobytes(line + seq!['\n'] + rest)
            == meminfo_kilobytes(rest),
{
    let none = Seq::<char>::empty();
    assert(line + none =~= line);
    lemma_line_len(line, none);
    assert(line.take(line.len() as int) =~= line);
    let text = line + seq!['\n'] + rest;
    assert(line + (seq!['\n'] + rest) =~= text);
    lemma_line_len(line, seq!['\n'] + rest);
    assert(text.take(line.len() as int) =~= line);
    assert(text.skip(line.len() as int + 1) =~= rest);
}

/// Kilobytes and bytes are counted in whole gigabytes: what is left over is less than one.
pub proof fn law_whole_gigabytes(text: &str)
    ensures
        ({
            let told = memory_gb(MemoryText::MemInfo(text));
            match meminfo_kilobytes(text@) {
                Some(kb) => told is Some && told->0 * 0x10_0000 <= kb < (told->0 + 1) * 0x10_0000,
                None => told is None,
            }
        }),
        ({
            let told = memory_gb(MemoryText::Sysctl(text));
            match parsed_number(trimmed(text@), u64::MAX as nat) {
                Some(bytes) => told is Some && told->0 * 0x4000_0000 <= bytes < (told->0 + 1)
                    * 0x4000_0000,
                None => told is None,
            }
        }),
        memory_gb(MemoryText::Unknown) is None,
{
}

} // verus!
