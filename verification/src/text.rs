//! Reading and writing of numbers and words in plain text.
//!
//! Text is modelled as the sequence of its characters, and a number as a mathematical natural.
use vstd::prelude::*;

verus! {

/// The character that stands for the decimal digit `d`.
pub open spec fn digit_char(d: nat) -> char {
    (48 + d) as char
}

/// Whether `c` is one of the ten decimal digits.
pub open spec fn is_digit(c: char) -> bool {
    '0' <= c && c <= '9'
}

/// The decimal numeral of `n`, without sign and without leading zeros.
pub open spec fn decimal(n: nat) -> Seq<char>
    decreases n,
{
    if n < 10 {
        seq![digit_char(n)]
    } else {
        decimal(n / 10).push(digit_char(n % 10))
    }
}

/// The decimal numeral of `n`, with a leading `-` where `n` is negative.
pub open spec fn signed_decimal(n: int) -> Seq<char> {
    if n < 0 {
        seq!['-'] + decimal((-n) as nat)
    } else {
        decimal(n as nat)
    }
}

/// The number that a sequence of digits denotes.
pub open spec fn digits_value(s: Seq<char>) -> nat
    decreases s.len(),
{
    if s.len() == 0 {
        0
    } else {
        digits_value(s.drop_last()) * 10 + (s.last() as nat - 48) as nat
    }
}

/// Whether every character of `s` is a digit.
pub open spec fn all_digits(s: Seq<char>) -> bool {
    forall|i: int| 0 <= i < s.len() ==> is_digit(#[trigger] s[i])
}

/// `s` without one leading `+` that something follows.
pub open spec fn without_plus(s: Seq<char>) -> Seq<char> {
    if s.len() > 1 && s[0] == '+' {
        s.drop_first()
    } else {
        s
    }
}

/// The number that `s` denotes as an optional `+` and at least one digit, if it is at most `max`.
pub open spec fn parsed_number(s: Seq<char>, max: nat) -> Option<nat> {
    let digits = without_plus(s);
    if digits.len() > 0 && all_digits(digits) && digits_value(digits) <= max {
        Some(digits_value(digits))
    } else {
        None
    }
}

/// The characters with the Unicode property `White_Space`.
pub open spec fn is_space(c: char) -> bool {
    ||| 0x9 <= c as u32 <= 0xd
    ||| c as u32 == 0x20
    ||| c as u32 == 0x85
    ||| c as u32 == 0xa0
    ||| c as u32 == 0x1680
    ||| 0x2000 <= c as u32 <= 0x200a
    ||| c as u32 == 0x2028
    ||| c as u32 == 0x2029
    ||| c as u32 == 0x202f
    ||| c as u32 == 0x205f
    ||| c as u32 == 0x3000
}

/// `s` from its first character that is no white space.
pub open spec fn trimmed_start(s: Seq<char>) -> Seq<char>
    decreases s.len(),
{
    if s.len() > 0 && is_space(s[0]) {
        trimmed_start(s.drop_first())
    } else {
        s
    }
}

/// `s` up to its last character that is no white space.
pub open spec fn trimmed_end(s: Seq<char>) -> Seq<char>
    decreases s.len(),
{
    if s.len() > 0 && is_space(s.last()) {
        trimmed_end(s.drop_last())
    } else {
        s
    }
}

/// `s` without leading and trailing white space.
pub open spec fn trimmed(s: Seq<char>) -> Seq<char> {
    trimmed_end(trimmed_start(s))
}

/// `n` spaces.
pub open spec fn spaces(n: nat) -> Seq<char> {
    Seq::new(n, |i: int| ' ')
}

/// `s`, filled with spaces on its left to at least `width` characters.
pub open spec fn right_aligned(s: Seq<char>, width: nat) -> Seq<char> {
    if s.len() < width {
        spaces((width - s.len()) as nat) + s
    } else {
        s
    }
}

/// `s` with spaces behind it, so that it is at least `width` characters wide.
pub open spec fn left_aligned(s: Seq<char>, width: nat) -> Seq<char> {
    if s.len() < width {
        s + spaces((width - s.len()) as nat)
    } else {
        s
    }
}

/// What some strings say.
pub open spec fn texts(parts: Seq<String>) -> Seq<Seq<char>> {
    parts.map_values(|s: String| s@)
}

/// Texts, one behind the other with `sep` between them.
pub open spec fn joined(parts: Seq<Seq<char>>, sep: Seq<char>) -> Seq<char>
    decreases parts.len(),
{
    if parts.len() == 0 {
        Seq::empty()
    } else if parts.len() == 1 {
        parts[0]
    } else {
        joined(parts.drop_last(), sep) + sep + parts.last()
    }
}

fn digit_text(d: u8) -> (r: &'static str)
    requires
        d < 10,
    ensures
        r@ == seq![digit_char(d as nat)],
{
    proof {
        reveal_strlit("0");
        reveal_strlit("1");
        reveal_strlit("2");
        reveal_strlit("3");
        reveal_strlit("4");
        reveal_strlit("5");
        reveal_strlit("6");
        reveal_strlit("7");
        reveal_strlit("8");
        reveal_strlit("9");
    }
    match d {
        0 => "0",
        1 => "1",
        2 => "2",
        3 => "3",
        4 => "4",
        5 => "5",
        6 => "6",
        7 => "7",
        8 => "8",
        _ => "9",
    }
}

/// The decimal numeral of `n`.
pub fn decimal_text(n: u64) -> (r: String)
    ensures
        r@ == decimal(n as nat),
    decreases n,
{
    if n < 10 {
        String::from_str(digit_text(n as u8))
    } else {
        let mut s = decimal_text(n / 10);
        s.append(digit_text((n % 10) as u8));
        s
    }
}

/// The decimal numeral of `n`, with its sign where it is negative.
pub fn signed_decimal_text(n: i64) -> (r: String)
    ensures
        r@ == signed_decimal(n as int),
{
    if n < 0 {
        let magnitude: u64 = (-(n as i128)) as u64;
        let mut s = String::from_str("-");
        let digits = decimal_text(magnitude);
        s.append(digits.as_str());
        proof {
            reveal_strlit("-");
        }
        s
    } else {
        decimal_text(n as u64)
    }
}

/// That many spaces.
fn fill(n: usize) -> (r: String)
    ensures
        r@ == spaces(n as nat),
{
    let mut s = String::new();
    let mut i: usize = 0;
    proof {
        reveal_strlit(" ");
    }
    while i < n
        invariant
            i <= n,
            s@ == spaces(i as nat),
            " "@ == seq![' '],
        decreases n - i,
    {
        s.append(" ");
        i = i + 1;
        assert(s@ =~= spaces(i as nat));
    }
    s
}

/// A text, with spaces in front of it so that it is at least `width` characters wide.
pub fn right_aligned_text(s: &str, width: usize) -> (r: String)
    ensures
        r@ == right_aligned(s@, width as nat),
{
    let len: usize = s.unicode_len();
    if len >= width {
        return String::from_str(s);
    }
    fill(width - len).concat(s)
}

/// A numeral, with spaces in front of it so that it is at least `width` characters wide.
pub fn padded_decimal_text(n: u64, width: usize) -> (r: String)
    ensures
        r@ == right_aligned(decimal(n as nat), width as nat),
{
    right_aligned_text(decimal_text(n).as_str(), width)
}

/// A text, with spaces behind it so that it is at least `width` characters wide.
pub fn left_aligned_text(s: &str, width: usize) -> (r: String)
    ensures
        r@ == left_aligned(s@, width as nat),
{
    let len: usize = s.unicode_len();
    if len >= width {
        return String::from_str(s);
    }
    String::from_str(s).concat(fill(width - len).as_str())
}

/// Whether two texts are the same.
pub fn same_text(a: &str, b: &str) -> (r: bool)
    ensures
        r == (a@ == b@),
{
    let x = chars_of(a);
    let y = chars_of(b);
    let n: usize = x.len();
    if n != y.len() {
        return false;
    }
    let mut i: usize = 0;
    while i < n
        invariant
            i <= n == x@.len() == y@.len(),
            x@ == a@,
            y@ == b@,
            forall|j: int| 0 <= j < i ==> x@[j] == y@[j],
        decreases n - i,
    {
        if x[i] != y[i] {
            return false;
        }
        i = i + 1;
    }
    assert(x@ =~= y@);
    true
}

/// The texts, one behind the other with `sep` between them.
pub fn join(parts: &Vec<String>, sep: &str) -> (r: String)
    ensures
        r@ == joined(texts(parts@), sep@),
{
    let n: usize = parts.len();
    let ghost all = texts(parts@);
    if n == 0 {
        let r = String::new();
        assert(r@ =~= joined(all, sep@));
        return r;
    }
    let mut r = String::from_str(parts[0].as_str());
    assert(all.take(1).drop_last() =~= Seq::<Seq<char>>::empty());
    let mut i: usize = 1;
    while i < n
        invariant
            1 <= i <= n == parts@.len(),
            all == texts(parts@),
            r@ == joined(all.take(i as int), sep@),
        decreases n - i,
    {
        r.append(sep);
        r.append(parts[i].as_str());
        assert(all.take(i + 1).drop_last() =~= all.take(i as int));
        i = i + 1;
    }
    assert(all.take(n as int) =~= all);
    r
}

/// Tells white space from other characters.
pub fn is_space_char(c: char) -> (r: bool)
    ensures
        r == is_space(c),
{
    let n: u32 = c as u32;
    (0x9 <= n && n <= 0xd) || n == 0x20 || n == 0x85 || n == 0xa0 || n == 0x1680 || (0x2000 <= n && n
        <= 0x200a) || n == 0x2028 || n == 0x2029 || n == 0x202f || n == 0x205f || n == 0x3000
}

/// The characters of a string, in order.
pub fn chars_of(s: &str) -> (r: Vec<char>)
    ensures
        r@ == s@,
{
    let mut out: Vec<char> = Vec::new();
    for c in it: s.chars()
        invariant
            out@ == it.seq().take(it.index() as int),
            it.seq() == s@,
    {
        out.push(c);
    }
    out
}

proof fn lemma_trimmed_start_step(s: Seq<char>, i: int)
    requires
        0 <= i < s.len(),
        is_space(s[i]),
    ensures
        trimmed_start(s.skip(i)) == trimmed_start(s.skip(i + 1)),
{
    assert(s.skip(i).drop_first() =~= s.skip(i + 1));
}

/// The bounds of `chars` without leading and trailing white space.
pub fn trim_bounds(chars: &Vec<char>) -> (r: (usize, usize))
    ensures
        r.0 <= r.1 <= chars@.len(),
        chars@.subrange(r.0 as int, r.1 as int) == trimmed(chars@),
{
    let mut start: usize = 0;
    let n: usize = chars.len();
    assert(chars@.skip(0) =~= chars@);
    while start < n && is_space_char(chars[start])
        invariant
            start <= n == chars@.len(),
            trimmed_start(chars@) == trimmed_start(chars@.skip(start as int)),
        decreases n - start,
    {
        proof {
            lemma_trimmed_start_step(chars@, start as int);
        }
        start = start + 1;
    }
    let ghost rest = chars@.skip(start as int);
    assert(trimmed_start(chars@) == rest);
    let mut end: usize = n;
    assert(chars@.subrange(start as int, end as int) =~= rest);
    while end > start && is_space_char(chars[end - 1])
        invariant
            start <= end <= n == chars@.len(),
            trimmed_end(rest) == trimmed_end(chars@.subrange(start as int, end as int)),
        decreases end,
    {
        proof {
            assert(chars@.subrange(start as int, end as int).drop_last() =~= chars@.subrange(
                start as int,
                end - 1,
            ));
        }
        end = end - 1;
    }
    (start, end)
}

proof fn lemma_value_grows(s: Seq<char>, i: int)
    requires
        0 <= i <= s.len(),
        all_digits(s),
    ensures
        digits_value(s.take(i)) <= digits_value(s),
    decreases s.len() - i,
{
    if i == s.len() {
        assert(s.take(i) =~= s);
    } else {
        lemma_value_grows(s, i + 1);
        assert(s.take(i + 1).drop_last() =~= s.take(i));
    }
}

/// Reads the characters from `start` to `end` as an unsigned number of at most `max`.
pub fn parse_number(chars: &Vec<char>, start: usize, end: usize, max: u64) -> (r: Option<u64>)
    requires
        start <= end <= chars@.len(),
    ensures
        match r {
            Some(n) => parsed_number(chars@.subrange(start as int, end as int), max as nat) == Some(
                n as nat,
            ),
            None => parsed_number(chars@.subrange(start as int, end as int), max as nat) is None,
        },
{
    let ghost whole = chars@.subrange(start as int, end as int);
    let mut from: usize = start;
    if end - start > 1 && chars[start] == '+' {
        from = start + 1;
    }
    let ghost digits = chars@.subrange(from as int, end as int);
    assert(digits =~= without_plus(whole));
    if from == end {
        return None;
    }
    let mut acc: u64 = 0;
    let mut i: usize = from;
    while i < end
        invariant
            from <= i <= end <= chars@.len(),
            whole == chars@.subrange(start as int, end as int),
            digits == chars@.subrange(from as int, end as int),
            digits == without_plus(whole),
            all_digits(digits.take(i - from)),
            acc == digits_value(digits.take(i - from)),
            acc <= max,
        decreases end - i,
    {
        let c = chars[i];
        assert(c == digits[i - from]);
        assert(digits.take(i - from + 1).drop_last() =~= digits.take(i - from));
        if !('0' <= c && c <= '9') {
            assert(!is_digit(digits[i - from]));
            return None;
        }
        let d: u64 = (c as u32 - 48) as u64;
        let next: u128 = acc as u128 * 10 + d as u128;
        assert(next == digits_value(digits.take(i - from + 1)));
        if next > max as u128 {
            proof {
                if all_digits(digits) {
                    lemma_value_grows(digits, i - from + 1);
                }
            }
            return None;
        }
        acc = next as u64;
        i = i + 1;
    }
    assert(digits.take(end - from) =~= digits);
    Some(acc)
}

/// Reads text that is an unsigned number of at most `max` and nothing else.
pub fn parse_whole(s: &str, max: u64) -> (r: Option<u64>)
    ensures
        match r {
            Some(n) => parsed_number(s@, max as nat) == Some(n as nat),
            None => parsed_number(s@, max as nat) is None,
        },
{
    let chars = chars_of(s);
    let n: usize = chars.len();
    assert(chars@.subrange(0, n as int) =~= s@);
    parse_number(&chars, 0, n, max)
}

/// Reads text that is an unsigned number of at most `max` between optional white space.
pub fn parse_trimmed(s: &str, max: u64) -> (r: Option<u64>)
    ensures
        match r {
            Some(n) => parsed_number(trimmed(s@), max as nat) == Some(n as nat),
            None => parsed_number(trimmed(s@), max as nat) is None,
        },
{
    let chars = chars_of(s);
    let bounds = trim_bounds(&chars);
    parse_number(&chars, bounds.0, bounds.1, max)
}

proof fn lemma_decimal_digits(n: nat)
    ensures
        decimal(n).len() > 0,
        all_digits(decimal(n)),
        digits_value(decimal(n)) == n,
    decreases n,
{
    reveal_with_fuel(digits_value, 2);
    if n < 10 {
        assert(decimal(n).drop_last() =~= Seq::<char>::empty());
    } else {
        lemma_decimal_digits(n / 10);
        assert(decimal(n).drop_last() =~= decimal(n / 10));
    }
}

/// Reading back a numeral gives the number it was written for, as long as the reader admits it.
pub proof fn law_decimal_round_trip(n: nat, max: nat)
    requires
        n <= max,
    ensures
        parsed_number(decimal(n), max) == Some(n),
        trimmed(decimal(n)) == decimal(n),
{
    lemma_decimal_digits(n);
    assert(is_digit(decimal(n)[0]));
    assert(is_digit(decimal(n).last()));
}

/// Two numbers with the same numeral are equal.
pub proof fn law_decimal_injective(m: nat, n: nat)
    requires
        decimal(m) == decimal(n),
    ensures
        m == n,
{
    lemma_decimal_digits(m);
    lemma_decimal_digits(n);
}

/// A numeral grows by one digit where its number is multiplied by ten and the digit added; the numerals
/// of the numbers below ten are the ten digits, which follow one another from the character 48 on.
pub proof fn law_numeral_grows_by_a_digit(n: nat, d: nat)
    requires
        d < 10,
    ensures
        decimal(d).len() == 1,
        decimal(d)[0] as int == 48 + d,
        n > 0 ==> decimal(10 * n + d) == decimal(n) + decimal(d),
{
    if n > 0 {
        let m = 10 * n + d;
        assert(m / 10 == n && m % 10 == d);
        assert(decimal(m) =~= decimal(n) + decimal(d));
    }
}

/// The numeral of a negative number is a minus sign and the numeral of the number without its sign; any
/// other numeral has no sign.
pub proof fn law_sign_of_a_numeral(n: nat)
    ensures
        signed_decimal(n as int) == decimal(n),
        n > 0 ==> signed_decimal(-(n as int)) == seq!['-'] + decimal(n),
        forall|i: int| 0 <= i < decimal(n).len() ==> #[trigger] decimal(n)[i] != '-',
{
    lemma_decimal_digits(n);
    assert forall|i: int| 0 <= i < decimal(n).len() implies #[trigger] decimal(n)[i] != '-' by {
        assert(is_digit(decimal(n)[i]));
    }
}

proof fn lemma_value_of_push(s: Seq<char>, c: char)
    requires
        is_digit(c),
    ensures
        all_digits(s.push(c)) <==> all_digits(s),
        digits_value(s.push(c)) == 10 * digits_value(s) + (c as nat - 48),
{
    assert(s.push(c).drop_last() =~= s);
    if all_digits(s.push(c)) {
        assert forall|i: int| 0 <= i < s.len() implies is_digit(#[trigger] s[i]) by {
            assert(s.push(c)[i] == s[i]);
        }
    }
}

/// Reading goes digit by digit: behind a number that can be read, a further digit multiplies it by ten and
/// adds the digit, as long as that is not too large; a single digit is read as what it stands for.
pub proof fn law_number_is_read_by_digits(s: Seq<char>, c: char, n: nat, max: nat)
    requires
        '0' <= c && c <= '9',
    ensures
        parsed_number(seq![c], 9) == Some((c as nat - 48) as nat),
        parsed_number(s, max) == Some(n) ==> parsed_number(s.push(c), max) == if 10 * n + (c as nat
            - 48) <= max {
            Some((10 * n + (c as nat - 48)) as nat)
        } else {
            None
        },
{
    assert(Seq::<char>::empty().push(c) =~= seq![c]);
    lemma_value_of_push(Seq::empty(), c);
    if parsed_number(s, max) == Some(n) {
        let digits = without_plus(s);
        assert(without_plus(s.push(c)) =~= digits.push(c)) by {
            if s.len() == 1 && s[0] == '+' {
                assert(!is_digit(digits[0]));
            }
        }
        lemma_value_of_push(digits, c);
    }
}

/// Text is read as a number only if, but for one leading plus sign, it is made of digits, at least one;
/// and the number that is read is not too large. A plus sign in front of digits changes nothing.
pub proof fn law_only_digits_are_read(s: Seq<char>, max: nat)
    ensures
        parsed_number(s, max) is Some ==> {
            &&& s.len() > 0
            &&& parsed_number(s, max)->0 <= max
            &&& forall|i: int| 0 < i < s.len() ==> '0' <= #[trigger] s[i] && s[i] <= '9'
            &&& (s[0] == '+' && s.len() > 1) || ('0' <= s[0] && s[0] <= '9')
        },
        s.len() > 0 && s[0] != '+' ==> parsed_number(seq!['+'] + s, max) == parsed_number(s, max),
        s.len() > 0 && (forall|i: int| 0 <= i < s.len() ==> '0' <= #[trigger] s[i] && s[i] <= '9')
            ==> exists|large: nat| #[trigger] parsed_number(s, large) is Some,
{
    if parsed_number(s, max) is Some {
        let digits = without_plus(s);
        assert(is_digit(digits[0]));
        assert forall|i: int| 0 < i < s.len() implies '0' <= #[trigger] s[i] && s[i] <= '9' by {
            if s.len() > 1 && s[0] == '+' {
                assert(is_digit(digits[i - 1]));
            } else {
                assert(is_digit(digits[i]));
            }
        }
    }
    if s.len() > 0 && s[0] != '+' {
        assert((seq!['+'] + s).drop_first() =~= s);
    }
    if s.len() > 0 && (forall|i: int| 0 <= i < s.len() ==> '0' <= #[trigger] s[i] && s[i] <= '9') {
        assert(all_digits(s));
        assert(parsed_number(s, digits_value(s)) is Some);
    }
}

proof fn lemma_trimmed_start(s: Seq<char>) -> (n: int)
    ensures
        0 <= n <= s.len(),
        trimmed_start(s) == s.skip(n),
        forall|i: int| 0 <= i < n ==> is_space(#[trigger] s[i]),
        n < s.len() ==> !is_space(s[n]),
    decreases s.len(),
{
    if s.len() > 0 && is_space(s[0]) {
        let n = lemma_trimmed_start(s.drop_first());
        assert(s.drop_first().skip(n) =~= s.skip(n + 1));
        assert forall|i: int| 0 <= i < n + 1 implies is_space(#[trigger] s[i]) by {
            if i > 0 {
                assert(s.drop_first()[i - 1] == s[i]);
            }
        }
        n + 1
    } else {
        assert(s.skip(0) =~= s);
        0
    }
}

proof fn lemma_trimmed_end(s: Seq<char>) -> (n: int)
    ensures
        0 <= n <= s.len(),
        trimmed_end(s) == s.take(n),
        forall|i: int| n <= i < s.len() ==> is_space(#[trigger] s[i]),
        n > 0 ==> !is_space(s[n - 1]),
    decreases s.len(),
{
    if s.len() > 0 && is_space(s.last()) {
        let n = lemma_trimmed_end(s.drop_last());
        assert(s.drop_last().take(n) =~= s.take(n));
        assert forall|i: int| n <= i < s.len() implies is_space(#[trigger] s[i]) by {
            if i < s.len() - 1 {
                assert(s.drop_last()[i] == s[i]);
            }
        }
        n
    } else {
        assert(s.take(s.len() as int) =~= s);
        s.len() as int
    }
}

/// Whether `s` is `front`, `middle` and `back` one behind the other, where `front` and `back` are white
/// space and `middle` neither starts nor ends with it.
pub open spec fn parts_at_space(
    s: Seq<char>,
    front: Seq<char>,
    middle: Seq<char>,
    back: Seq<char>,
) -> bool {
    &&& s == front + middle + back
    &&& forall|i: int| 0 <= i < front.len() ==> is_space(#[trigger] front[i])
    &&& forall|i: int| 0 <= i < back.len() ==> is_space(#[trigger] back[i])
    &&& middle.len() > 0 ==> !is_space(middle[0]) && !is_space(middle[middle.len() - 1])
}

proof fn lemma_trimmed_parts(s: Seq<char>) -> (r: (Seq<char>, Seq<char>))
    ensures
        parts_at_space(s, r.0, trimmed(s), r.1),
{
    let n = lemma_trimmed_start(s);
    let rest = s.skip(n);
    let m = lemma_trimmed_end(rest);
    let front = s.take(n);
    let back = rest.skip(m);
    let middle = rest.take(m);
    assert(s =~= front + middle + back);
    assert forall|i: int| 0 <= i < front.len() implies is_space(#[trigger] front[i]) by {
        assert(front[i] == s[i]);
    }
    assert forall|i: int| 0 <= i < back.len() implies is_space(#[trigger] back[i]) by {
        assert(back[i] == rest[i + m]);
    }
    if middle.len() > 0 {
        assert(middle[0] == s[n]);
        assert(middle[m - 1] == rest[m - 1]);
    }
    (front, back)
}

proof fn lemma_same_ends(
    s: Seq<char>,
    f: Seq<char>,
    m: Seq<char>,
    b: Seq<char>,
    g: Seq<char>,
    n: Seq<char>,
    c: Seq<char>,
)
    requires
        parts_at_space(s, f, m, b),
        parts_at_space(s, g, n, c),
    ensures
        m == n,
{
    let whole = (f + m + b).len() as int;
    assert(whole == f.len() + m.len() + b.len());
    assert(whole == g.len() + n.len() + c.len());
    assert forall|i: int| 0 <= i < f.len() implies is_space(#[trigger] s[i]) by {
        assert(s[i] == f[i]);
    }
    assert forall|i: int| 0 <= i < g.len() implies is_space(#[trigger] s[i]) by {
        assert(s[i] == g[i]);
    }
    assert forall|i: int| f.len() + m.len() <= i < whole implies is_space(#[trigger] s[i]) by {
        assert(s[i] == b[i - f.len() - m.len()]);
    }
    assert forall|i: int| g.len() + n.len() <= i < whole implies is_space(#[trigger] s[i]) by {
        assert(s[i] == c[i - g.len() - n.len()]);
    }
    if m.len() > 0 {
        assert(s[f.len() as int] == m[0]);
        assert(s[f.len() + m.len() - 1] == m[m.len() - 1]);
    }
    if n.len() > 0 {
        assert(s[g.len() as int] == n[0]);
        assert(s[g.len() + n.len() - 1] == n[n.len() - 1]);
    }
    if m.len() == 0 {
        if n.len() > 0 {
            assert(is_space(s[g.len() as int]));
        }
        assert(n =~= m);
    } else if n.len() == 0 {
        assert(is_space(s[f.len() as int]));
        assert(n =~= m);
    } else {
        assert(f.len() == g.len());
        assert(m.len() == n.len());
        assert forall|i: int| 0 <= i < m.len() implies m[i] == n[i] by {
            assert(m[i] == s[i + f.len()]);
            assert(n[i] == s[i + g.len()]);
        }
        assert(m =~= n);
    }
}

/// Trimming takes away white space in front and behind, all of it and nothing else: of whatever text
/// between white space that neither starts nor ends with it, exactly that text is left.
pub proof fn law_trimming_leaves_the_middle(
    s: Seq<char>,
    front: Seq<char>,
    middle: Seq<char>,
    back: Seq<char>,
)
    requires
        parts_at_space(s, front, middle, back),
    ensures
        trimmed(s) == middle,
        trimmed(trimmed(s)) == trimmed(s),
{
    let (g, c) = lemma_trimmed_parts(s);
    lemma_same_ends(s, front, middle, back, g, trimmed(s), c);
    let (h, d) = lemma_trimmed_parts(trimmed(s));
    let none = Seq::<char>::empty();
    assert(middle =~= none + middle + none);
    assert(parts_at_space(trimmed(s), none, middle, none));
    lemma_same_ends(trimmed(s), none, middle, none, h, trimmed(trimmed(s)), d);
}

/// Text is nowhere white space but where one of these characters stands: tab, line feed and the three
/// after it, space, next line, no-break space, and the spaces and separators beyond Latin-1.
pub proof fn law_white_space(c: char)
    ensures
        is_space(c) <==> {
            ||| c == '\t' || c == '\n' || c == '\u{b}' || c == '\u{c}' || c == '\r'
            ||| c == ' ' || c == '\u{85}' || c == '\u{a0}'
            ||| c == '\u{1680}' || c == '\u{2000}' || c == '\u{2001}' || c == '\u{2002}'
            ||| c == '\u{2003}' || c == '\u{2004}' || c == '\u{2005}' || c == '\u{2006}'
            ||| c == '\u{2007}' || c == '\u{2008}' || c == '\u{2009}' || c == '\u{200a}'
            ||| c == '\u{2028}' || c == '\u{2029}' || c == '\u{202f}' || c == '\u{205f}'
            ||| c == '\u{3000}'
        },
{
}

/// Aligned text is as wide as it has to be, and no wider than that or itself; it has the text at its
/// end, or at its start, and spaces otherwise.
pub proof fn law_alignment(s: Seq<char>, width: nat)
    ensures
        right_aligned(s, width).len() >= width,
        right_aligned(s, width).len() >= s.len(),
        right_aligned(s, width).len() == width || right_aligned(s, width).len() == s.len(),
        right_aligned(s, width).skip(right_aligned(s, width).len() - s.len()) == s,
        forall|i: int|
            0 <= i < right_aligned(s, width).len() - s.len() ==> #[trigger] right_aligned(s, width)[i]
                == ' ',
        left_aligned(s, width).len() == right_aligned(s, width).len(),
        left_aligned(s, width).take(s.len() as int) == s,
        forall|i: int|
            s.len() <= i < left_aligned(s, width).len() ==> #[trigger] left_aligned(s, width)[i] == ' ',
{
    assert(right_aligned(s, width).skip(right_aligned(s, width).len() - s.len()) =~= s);
    assert(left_aligned(s, width).take(s.len() as int) =~= s);
}

/// Joining two lists of texts is joining each of them and putting the separator between; one text is
/// joined to itself, and no texts to nothing.
pub proof fn law_joining(a: Seq<Seq<char>>, b: Seq<Seq<char>>, one: Seq<char>, sep: Seq<char>)
    requires
        a.len() > 0,
        b.len() > 0,
    ensures
        joined(Seq::empty(), sep) == Seq::<char>::empty(),
        joined(seq![one], sep) == one,
        joined(a + b, sep) == joined(a, sep) + sep + joined(b, sep),
    decreases b.len(),
{
    if b.len() == 1 {
        assert((a + b).drop_last() =~= a);
    } else {
        assert((a + b).drop_last() =~= a + b.drop_last());
        law_joining(a, b.drop_last(), one, sep);
        assert(joined(a + b, sep) =~= joined(a, sep) + sep + joined(b, sep));
    }
}

/// What some strings say is what each of them says, in order.
pub proof fn law_texts_in_order(parts: Seq<String>)
    ensures
        texts(parts).len() == parts.len(),
        forall|i: int| 0 <= i < parts.len() ==> #[trigger] texts(parts)[i] == parts[i]@,
{
}

} // verus!
