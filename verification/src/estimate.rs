//! What indexing a repository is expected to take.
//!
//! Numbers with a fraction are handled by their IEEE 754 bit patterns: those of positive numbers are
//! ordered like the numbers themselves.
use crate::clock::{truncated_div, truncated_rem};
use crate::json::{has_field, lemma_has_field, maybe_real_view, Fields, Json, JsonView};
use crate::json::{no_fields, object};
use crate::report::{Line, Report, Style};
use crate::report::{blank_line, field_line, lemma_shows, lemma_shows_in, shows, shows_in};
use crate::report::styled_line;
use crate::text::{decimal, decimal_text, join, joined, parse_whole, parsed_number};
use crate::text::{signed_decimal, signed_decimal_text, texts};
use vstd::prelude::*;

verus! {

/// The nodes in a batch for Jina, unless something else is asked for.
pub const DEFAULT_JINA_BATCH_SIZE: usize = 2000;

/// The bits of 9.0, the minutes per batch for Jina, unless something else is asked for.
pub const DEFAULT_JINA_BATCH_MINUTES: u64 = 0x4022_0000_0000_0000;

/// The bits of 0.1, the least number of minutes per batch.
pub const LEAST_JINA_BATCH_MINUTES: u64 = 0x3FB9_9999_9999_999A;

/// The bits of positive infinity. Those of the other positive numbers are smaller; those of negative
/// numbers and of positive values that are no numbers are larger.
pub const INFINITY: u64 = 0x7FF0_0000_0000_0000;

/// How fast embeddings are made.
#[derive(Debug, Clone, Copy, PartialEq, Eq, Structural)]
pub struct EmbeddingThroughputConfig {
    pub jina_batch_size: usize,
    /// The bits of the minutes that a batch takes.
    pub jina_batch_minutes: u64,
    /// The bits of the number of embeddings in a minute.
    pub local_embeddings_per_minute: u64,
}

/// Where an estimate gets its assumptions from: what was asked for, and what the environment says.
#[derive(Debug)]
pub struct ThroughputInputs<'a> {
    pub jina_batch_size: Option<usize>,
    pub jina_batch_size_env: Option<&'a str>,
    pub jina_batch_minutes: Option<u64>,
    pub jina_batch_minutes_env: Option<u64>,
    pub local_throughput: Option<u64>,
    pub local_throughput_env: Option<u64>,
    /// The bits of the number of embeddings that the workers make in a minute.
    pub default_local_rate: u64,
}

/// The first value that there is.
pub open spec fn first_of<T>(a: Option<T>, b: Option<T>, default: T) -> T {
    match a {
        Some(x) => x,
        None => match b {
            Some(x) => x,
            None => default,
        },
    }
}

/// Whether the bits are those of a positive number that is not infinite.
pub open spec fn is_positive(bits: u64) -> bool {
    0 < bits < INFINITY
}

/// The value, if it is a positive number that is not infinite.
pub open spec fn sanitized(value: Option<u64>) -> Option<u64> {
    match value {
        Some(bits) if is_positive(bits) => Some(bits),
        _ => None,
    }
}

/// The larger of a number and of the least number of minutes. What is no number gives way.
pub open spec fn at_least_a_tenth(bits: u64) -> u64 {
    if LEAST_JINA_BATCH_MINUTES < bits <= INFINITY {
        bits
    } else {
        LEAST_JINA_BATCH_MINUTES
    }
}

/// The size that the environment gives, if it is a numeral that fits.
pub open spec fn env_size(text: Option<&str>) -> Option<usize> {
    match text {
        Some(s) => match parsed_number(s@, usize::MAX as nat) {
            Some(n) => Some(n as usize),
            None => None,
        },
        None => None,
    }
}

/// The assumptions of an estimate: what was asked for comes before what the environment says, and that
/// before the default.
pub open spec fn throughput(inputs: ThroughputInputs) -> EmbeddingThroughputConfig {
    let size = first_of(
        inputs.jina_batch_size,
        env_size(inputs.jina_batch_size_env),
        DEFAULT_JINA_BATCH_SIZE,
    );
    EmbeddingThroughputConfig {
        jina_batch_size: if size < 1 {
            1
        } else {
            size
        },
        jina_batch_minutes: at_least_a_tenth(
            first_of(
                inputs.jina_batch_minutes,
                inputs.jina_batch_minutes_env,
                DEFAULT_JINA_BATCH_MINUTES,
            ),
        ),
        local_embeddings_per_minute: first_of(
            sanitized(inputs.local_throughput),
            sanitized(inputs.local_throughput_env),
            inputs.default_local_rate,
        ),
    }
}

/// The value, if it is a positive number that is not infinite.
pub fn sanitize_positive(value: Option<u64>) -> (r: Option<u64>)
    ensures
        r == sanitized(value),
{
    match value {
        Some(bits) => if 0 < bits && bits < INFINITY {
            Some(bits)
        } else {
            None
        },
        None => None,
    }
}

/// The size that the environment gives, if it is a numeral that fits.
pub fn env_usize(text: Option<&str>) -> (r: Option<usize>)
    ensures
        r == env_size(text),
{
    match text {
        Some(s) => match parse_whole(s, usize::MAX as u64) {
            Some(n) => Some(n as usize),
            None => None,
        },
        None => None,
    }
}

/// The number of workers by which the default rate is multiplied.
pub fn counted_workers(workers: usize) -> (r: usize)
    ensures
        r == if workers < 1 {
            1
        } else {
            workers
        },
{
    if workers < 1 {
        1
    } else {
        workers
    }
}

/// The assumptions of an estimate.
pub fn resolve_throughput_config(inputs: ThroughputInputs<'_>) -> (r: EmbeddingThroughputConfig)
    ensures
        r == throughput(inputs),
        inputs.jina_batch_size matches Some(n) ==> n >= 1 ==> r.jina_batch_size == n,
        inputs.jina_batch_minutes matches Some(bits) ==> 0x3FB9_9999_9999_999A <= bits
            <= 0x7FF0_0000_0000_0000 ==> r.jina_batch_minutes == bits,
        inputs.local_throughput matches Some(bits) ==> 0 < bits < 0x7FF0_0000_0000_0000
            ==> r.local_embeddings_per_minute == bits,
{
    let size: usize = match inputs.jina_batch_size {
        Some(n) => n,
        None => match env_usize(inputs.jina_batch_size_env) {
            Some(n) => n,
            None => DEFAULT_JINA_BATCH_SIZE,
        },
    };
    let minutes: u64 = match inputs.jina_batch_minutes {
        Some(bits) => bits,
        None => match inputs.jina_batch_minutes_env {
            Some(bits) => bits,
            None => DEFAULT_JINA_BATCH_MINUTES,
        },
    };
    let rate: u64 = match sanitize_positive(inputs.local_throughput) {
        Some(bits) => bits,
        None => match sanitize_positive(inputs.local_throughput_env) {
            Some(bits) => bits,
            None => inputs.default_local_rate,
        },
    };
    EmbeddingThroughputConfig {
        jina_batch_size: if size < 1 {
            1
        } else {
            size
        },
        jina_batch_minutes: if LEAST_JINA_BATCH_MINUTES < minutes && minutes <= INFINITY {
            minutes
        } else {
            LEAST_JINA_BATCH_MINUTES
        },
        local_embeddings_per_minute: rate,
    }
}

/// The hours, minutes and seconds of a number of seconds.
pub open spec fn duration_fields(seconds: int) -> (int, int, int) {
    (
        truncated_div(seconds, 3600),
        truncated_div(truncated_rem(seconds, 3600), 60),
        truncated_rem(seconds, 60),
    )
}

/// The parts in which a number of seconds is shown: those that are positive, or else the seconds.
pub open spec fn duration_parts(seconds: int) -> Seq<Seq<char>> {
    let (h, m, s) = duration_fields(seconds);
    let hours = if h > 0 {
        seq![signed_decimal(h) + "h"@]
    } else {
        seq![]
    };
    let minutes = if m > 0 {
        hours.push(signed_decimal(m) + "m"@)
    } else {
        hours
    };
    if s > 0 || minutes.len() == 0 {
        minutes.push(signed_decimal(s) + "s"@)
    } else {
        minutes
    }
}

/// How a number of seconds is shown; there is none for a duration that is no number.
pub open spec fn duration_text(seconds: Option<i64>) -> Seq<char> {
    match seconds {
        Some(t) => joined(duration_parts(t as int), " "@),
        None => "unknown"@,
    }
}

fn part(n: u64, unit: &str) -> (r: String)
    requires
        n <= i64::MAX,
    ensures
        r@ == signed_decimal(n as int) + unit@,
{
    signed_decimal_text(n as i64).concat(unit)
}

/// How a duration is shown, given its seconds. There are none for a duration that is no number.
pub fn format_duration_minutes(total_seconds: Option<i64>) -> (r: String)
    ensures
        r@ == duration_text(total_seconds),
{
    let t: i64 = match total_seconds {
        Some(t) => t,
        None => return String::from_str("unknown"),
    };
    let size: u64 = if t >= 0 {
        t as u64
    } else {
        (-(t as i128)) as u64
    };
    let hours: u64 = size / 3600;
    let minutes: u64 = size % 3600 / 60;
    let seconds: u64 = size % 60;
    let mut parts: Vec<String> = Vec::new();
    if t < 0 {
        parts.push(signed_decimal_text(-(seconds as i64)).concat("s"));
    } else {
        if hours > 0 {
            parts.push(part(hours, "h"));
        }
        if minutes > 0 {
            parts.push(part(minutes, "m"));
        }
        if seconds > 0 || parts.len() == 0 {
            parts.push(part(seconds, "s"));
        }
    }
    assert(texts(parts@) =~= duration_parts(t as int));
    join(&parts, " ")
}

/// What is shown before an estimate.
pub fn estimating_line(path: &str) -> (r: Line)
    ensures
        r@ == seq![
            (Style::CyanBold, "🔍 Estimating repository:"@),
            (Style::Plain, " "@),
            (Style::Plain, path@),
        ],
{
    Line::new().with(Style::CyanBold, "🔍 Estimating repository:").plain(" ").plain(path)
}

/// How long embeddings on this machine are expected to take.
#[derive(Debug)]
pub struct LocalEstimate<'a> {
    pub seconds: Option<i64>,
    /// The embeddings in a minute, as they are shown.
    pub rate: &'a str,
    /// The time with parsing.
    pub total_seconds: Option<i64>,
}

/// What an estimate found. Durations are given by their seconds, where they are numbers.
#[derive(Debug)]
pub struct Estimate<'a> {
    pub path: &'a str,
    pub languages: &'a Vec<String>,
    pub provider: &'a str,
    pub parsed_files: usize,
    pub total_files: usize,
    pub failed_files: usize,
    pub nodes: usize,
    pub edges: usize,
    pub symbols: usize,
    pub parsing_seconds: Option<i64>,
    pub jina_seconds: Option<i64>,
    pub jina_batches: usize,
    pub jina_batch_size: usize,
    pub total_jina_seconds: Option<i64>,
    pub local: Option<LocalEstimate<'a>>,
    pub assumed_batch_size: usize,
    /// The minutes per batch that were assumed, as they are shown.
    pub assumed_batch_minutes: &'a str,
    /// The embeddings in a minute that were assumed, as they are shown.
    pub assumed_rate: &'a str,
    pub runtime_seconds: Option<i64>,
}

/// How the languages of an estimate are shown.
pub open spec fn languages_text(languages: Seq<String>) -> Seq<char> {
    if languages.len() == 0 {
        "auto-detect"@
    } else {
        joined(texts(languages), ", "@)
    }
}

/// What is shown of embeddings on this machine.
pub open spec fn local_lines(local: Option<LocalEstimate>) -> Seq<Seq<(Style, Seq<char>)>> {
    match local {
        Some(l) => seq![
            seq![
                (Style::Plain, "Local embeddings: "@),
                (Style::Plain, duration_text(l.seconds)),
                (Style::Plain, " ("@),
                (Style::Plain, l.rate@),
                (Style::Plain, " embeddings/min)"@),
            ],
            field_line("Total time (parsing + local): "@, Style::Plain, duration_text(l.total_seconds)),
        ],
        None => seq![
            styled_line(
                Style::Dimmed,
                "Local embeddings: set --local-throughput to compare speed."@,
            ),
        ],
    }
}

/// What is shown of an estimate before embeddings on this machine.
pub open spec fn first_estimate_lines(e: Estimate) -> Seq<Seq<(Style, Seq<char>)>> {
    seq![
        blank_line(),
        styled_line(Style::CyanBold, "📊 Indexing Estimate"@),
        field_line("Path: "@, Style::Plain, e.path@),
        field_line("Languages: "@, Style::Plain, languages_text(e.languages@)),
        field_line("Embedding provider (config): "@, Style::Plain, e.provider@),
        blank_line(),
        seq![
            (Style::Plain, "Files parsed: "@),
            (Style::Plain, decimal(e.parsed_files as nat)),
            (Style::Plain, " / "@),
            (Style::Plain, decimal(e.total_files as nat)),
            (Style::Plain, " (failed: "@),
            (Style::Plain, decimal(e.failed_files as nat)),
            (Style::Plain, ")"@),
        ],
        field_line("Nodes: "@, Style::Plain, decimal(e.nodes as nat)),
        field_line("Edges: "@, Style::Plain, decimal(e.edges as nat)),
        field_line("Symbols: "@, Style::Plain, decimal(e.symbols as nat)),
        field_line("Parsing time (measured): "@, Style::Plain, duration_text(e.parsing_seconds)),
        seq![
            (Style::Plain, "Jina embeddings: "@),
            (Style::Plain, duration_text(e.jina_seconds)),
            (Style::Plain, " ("@),
            (Style::Plain, decimal(e.jina_batches as nat)),
            (Style::Plain, " batches × "@),
            (Style::Plain, decimal(e.jina_batch_size as nat)),
            (Style::Plain, " nodes)"@),
        ],
        field_line(
            "Total time (parsing + Jina): "@,
            Style::Plain,
            duration_text(e.total_jina_seconds),
        ),
    ]
}

/// What is shown of an estimate after embeddings on this machine.
pub open spec fn last_estimate_lines(e: Estimate) -> Seq<Seq<(Style, Seq<char>)>> {
    seq![
        seq![
            (Style::Plain, "Assumptions: "@),
            (Style::Plain, decimal(e.assumed_batch_size as nat)),
            (Style::Plain, " nodes/batch @ "@),
            (Style::Plain, e.assumed_batch_minutes@),
            (Style::Plain, " min, local "@),
            (Style::Plain, e.assumed_rate@),
            (Style::Plain, " embeddings/min baseline."@),
        ],
        seq![
            (Style::Plain, "Estimation runtime: "@),
            (Style::Plain, duration_text(e.runtime_seconds)),
            (Style::Plain, " (parser only, no DB writes)"@),
        ],
    ]
}

fn first_lines(e: &Estimate<'_>) -> (r: Report)
    ensures
        r@ == first_estimate_lines(*e),
{
    let mut r = Report::new();
    r.blank();
    r.styled(Style::CyanBold, "📊 Indexing Estimate");
    r.field("Path: ", Style::Plain, e.path);
    if e.languages.len() == 0 {
        r.field("Languages: ", Style::Plain, "auto-detect");
    } else {
        r.field("Languages: ", Style::Plain, join(e.languages, ", ").as_str());
    }
    r.field("Embedding provider (config): ", Style::Plain, e.provider);
    r.blank();
    r.push(
        Line::new().plain("Files parsed: ").plain(decimal_text(e.parsed_files as u64).as_str()).plain(
            " / ",
        ).plain(decimal_text(e.total_files as u64).as_str()).plain(" (failed: ").plain(
            decimal_text(e.failed_files as u64).as_str(),
        ).plain(")"),
    );
    r.field("Nodes: ", Style::Plain, decimal_text(e.nodes as u64).as_str());
    r.field("Edges: ", Style::Plain, decimal_text(e.edges as u64).as_str());
    r.field("Symbols: ", Style::Plain, decimal_text(e.symbols as u64).as_str());
    r.field(
        "Parsing time (measured): ",
        Style::Plain,
        format_duration_minutes(e.parsing_seconds).as_str(),
    );
    r.push(
        Line::new().plain("Jina embeddings: ").plain(
            format_duration_minutes(e.jina_seconds).as_str(),
        ).plain(" (").plain(decimal_text(e.jina_batches as u64).as_str()).plain(" batches × ").plain(
            decimal_text(e.jina_batch_size as u64).as_str(),
        ).plain(" nodes)"),
    );
    r.field(
        "Total time (parsing + Jina): ",
        Style::Plain,
        format_duration_minutes(e.total_jina_seconds).as_str(),
    );
    assert(r@ =~~= first_estimate_lines(*e));
    r
}

/// What is shown of an estimate.
pub fn present_estimate_output(e: &Estimate<'_>) -> (r: Report)
    ensures
        r@ == first_estimate_lines(*e) + local_lines(e.local) + last_estimate_lines(*e),
{
    let mut r = first_lines(e);
    match &e.local {
        Some(l) => {
            r.push(
                Line::new().plain("Local embeddings: ").plain(
                    format_duration_minutes(l.seconds).as_str(),
                ).plain(" (").plain(l.rate).plain(" embeddings/min)"),
            );
            r.field(
                "Total time (parsing + local): ",
                Style::Plain,
                format_duration_minutes(l.total_seconds).as_str(),
            );
        },
        None => {
            r.styled(
                Style::Dimmed,
                "Local embeddings: set --local-throughput to compare speed.",
            );
        },
    }
    assert(r@ =~~= first_estimate_lines(*e) + local_lines(e.local));
    r.push(
        Line::new().plain("Assumptions: ").plain(
            decimal_text(e.assumed_batch_size as u64).as_str(),
        ).plain(" nodes/batch @ ").plain(e.assumed_batch_minutes).plain(" min, local ").plain(
            e.assumed_rate,
        ).plain(" embeddings/min baseline."),
    );
    r.push(
        Line::new().plain("Estimation runtime: ").plain(
            format_duration_minutes(e.runtime_seconds).as_str(),
        ).plain(" (parser only, no DB writes)"),
    );
    assert(r@ =~~= first_estimate_lines(*e) + local_lines(e.local) + last_estimate_lines(*e));
    r
}

/// Hours, minutes and seconds add up to the duration, and minutes and seconds stay below sixty.
pub proof fn law_duration_adds_up(seconds: int)
    requires
        seconds >= 0,
    ensures
        ({
            let (h, m, s) = duration_fields(seconds);
            &&& h * 3600 + m * 60 + s == seconds
            &&& 0 <= h
            &&& 0 <= m < 60
            &&& 0 <= s < 60
        }),
{
}

/// What an estimate assumes is always usable: there is at least one node in a batch, a batch takes at
/// least a tenth of a minute, and the rate is positive and finite if that of the workers is.
pub proof fn law_assumptions_are_usable(inputs: ThroughputInputs)
    requires
        is_positive(inputs.default_local_rate),
    ensures
        throughput(inputs).jina_batch_size >= 1,
        LEAST_JINA_BATCH_MINUTES <= throughput(inputs).jina_batch_minutes <= INFINITY,
        is_positive(throughput(inputs).local_embeddings_per_minute),
{
}

/// What was asked for decides, whatever the environment says.
pub proof fn law_request_beats_environment(a: ThroughputInputs, b: ThroughputInputs)
    requires
        a.jina_batch_size is Some && a.jina_batch_size == b.jina_batch_size,
        a.jina_batch_minutes is Some && a.jina_batch_minutes == b.jina_batch_minutes,
        sanitized(a.local_throughput) is Some && a.local_throughput == b.local_throughput,
    ensures
        throughput(a) == throughput(b),
{
}

/// The numbers with a fraction of an estimate, by their bits, and what else only its document holds.
#[derive(Debug)]
pub struct EstimateFigures<'a> {
    pub path: &'a str,
    pub total_lines: usize,
    pub parsing_minutes: u64,
    pub parsing_seconds: u64,
    pub files_per_second: u64,
    pub lines_per_second: u64,
    pub jina_batch_minutes: u64,
    pub jina_minutes: u64,
    pub total_jina_minutes: u64,
    pub local_rate_per_minute: Option<u64>,
    pub local_minutes: Option<u64>,
    pub total_local_minutes: Option<u64>,
    pub workers: usize,
    pub batch_size: usize,
    pub runtime_seconds: u64,
}

/// The languages of an estimate, as a document: nothing if none were asked for.
pub open spec fn languages_document(languages: Seq<String>) -> JsonView {
    if languages.len() == 0 {
        JsonView::Null
    } else {
        JsonView::List(languages.map_values(|s: String| JsonView::Text(s@)))
    }
}

/// What was counted, as a document.
pub open spec fn counts_document(e: Estimate) -> JsonView {
    object(no_fields()
        .push(("total_files"@, JsonView::Number(e.total_files as nat)))
        .push(("parsed_files"@, JsonView::Number(e.parsed_files as nat)))
        .push(("failed_files"@, JsonView::Number(e.failed_files as nat)))
        .push(("nodes"@, JsonView::Number(e.nodes as nat)))
        .push(("edges"@, JsonView::Number(e.edges as nat)))
        .push(("symbols"@, JsonView::Number(e.symbols as nat))))
}

/// What parsing took, as a document.
pub open spec fn parsing_document(f: EstimateFigures) -> JsonView {
    object(no_fields()
        .push(("minutes"@, JsonView::Real(f.parsing_minutes)))
        .push(("duration_seconds"@, JsonView::Real(f.parsing_seconds)))
        .push(("total_lines"@, JsonView::Number(f.total_lines as nat)))
        .push(("files_per_second"@, JsonView::Real(f.files_per_second)))
        .push(("lines_per_second"@, JsonView::Real(f.lines_per_second))))
}

/// What embeddings are expected to take, as a document.
pub open spec fn timings_document(e: Estimate, f: EstimateFigures) -> JsonView {
    object(no_fields()
        .push((
                "jina"@,
                object(no_fields()
                    .push(("batches"@, JsonView::Number(e.jina_batches as nat)))
                    .push(("batch_size"@, JsonView::Number(e.jina_batch_size as nat)))
                    .push(("batch_minutes"@, JsonView::Real(f.jina_batch_minutes)))
                    .push(("minutes"@, JsonView::Real(f.jina_minutes)))
                    .push(("total_minutes_with_parsing"@, JsonView::Real(f.total_jina_minutes)))),
        ))
        .push((
                "local"@,
                object(no_fields()
                    .push(("rate_per_minute"@, maybe_real_view(f.local_rate_per_minute)))
                    .push(("minutes"@, maybe_real_view(f.local_minutes)))
                    .push(("total_minutes_with_parsing"@, maybe_real_view(f.total_local_minutes)))),
    )))
}

/// What an estimate assumed, as a document.
pub open spec fn assumptions_document(t: EmbeddingThroughputConfig) -> JsonView {
    object(no_fields()
        .push(("jina_batch_size"@, JsonView::Number(t.jina_batch_size as nat)))
        .push(("jina_batch_minutes"@, JsonView::Real(t.jina_batch_minutes)))
        .push(("local_embeddings_per_minute"@, JsonView::Real(t.local_embeddings_per_minute))))
}

/// An estimate, as a document.
pub open spec fn estimate_document(
    e: Estimate,
    f: EstimateFigures,
    t: EmbeddingThroughputConfig,
) -> JsonView {
    object(no_fields()
        .push(("path"@, JsonView::Text(f.path@)))
        .push(("languages"@, languages_document(e.languages@)))
        .push(("counts"@, counts_document(e)))
        .push(("parsing"@, parsing_document(f)))
        .push(("timings"@, timings_document(e, f)))
        .push(("workers"@, JsonView::Number(f.workers as nat)))
        .push(("batch_size"@, JsonView::Number(f.batch_size as nat)))
        .push(("embedding_provider"@, JsonView::Text(e.provider@)))
        .push(("assumptions"@, assumptions_document(t)))
        .push(("estimate_runtime_seconds"@, JsonView::Real(f.runtime_seconds))))
}

fn counts_json(e: &Estimate<'_>) -> (r: Json)
    ensures
        r@ == counts_document(*e),
{
    Fields::new().with("total_files", Json::number(e.total_files)).with(
        "parsed_files",
        Json::number(e.parsed_files),
    ).with("failed_files", Json::number(e.failed_files)).with("nodes", Json::number(e.nodes)).with(
        "edges",
        Json::number(e.edges),
    ).with("symbols", Json::number(e.symbols)).done()
}

fn parsing_json(f: &EstimateFigures<'_>) -> (r: Json)
    ensures
        r@ == parsing_document(*f),
{
    Fields::new().with("minutes", Json::Real(f.parsing_minutes)).with(
        "duration_seconds",
        Json::Real(f.parsing_seconds),
    ).with("total_lines", Json::number(f.total_lines)).with(
        "files_per_second",
        Json::Real(f.files_per_second),
    ).with("lines_per_second", Json::Real(f.lines_per_second)).done()
}

fn timings_json(e: &Estimate<'_>, f: &EstimateFigures<'_>) -> (r: Json)
    ensures
        r@ == timings_document(*e, *f),
{
    let jina = Fields::new().with("batches", Json::number(e.jina_batches)).with(
        "batch_size",
        Json::number(e.jina_batch_size),
    ).with("batch_minutes", Json::Real(f.jina_batch_minutes)).with(
        "minutes",
        Json::Real(f.jina_minutes),
    ).with("total_minutes_with_parsing", Json::Real(f.total_jina_minutes)).done();
    let local = Fields::new().with(
        "rate_per_minute",
        Json::maybe_real(f.local_rate_per_minute),
    ).with("minutes", Json::maybe_real(f.local_minutes)).with(
        "total_minutes_with_parsing",
        Json::maybe_real(f.total_local_minutes),
    ).done();
    Fields::new().with("jina", jina).with("local", local).done()
}

fn assumptions_json(t: &EmbeddingThroughputConfig) -> (r: Json)
    ensures
        r@ == assumptions_document(*t),
{
    Fields::new().with("jina_batch_size", Json::number(t.jina_batch_size)).with(
        "jina_batch_minutes",
        Json::Real(t.jina_batch_minutes),
    ).with("local_embeddings_per_minute", Json::Real(t.local_embeddings_per_minute)).done()
}

/// An estimate, as a document.
pub fn estimate_json(
    e: &Estimate<'_>,
    f: &EstimateFigures<'_>,
    t: &EmbeddingThroughputConfig,
) -> (r: Json)
    ensures
        r@ == estimate_document(*e, *f, *t),
{
    let languages = if e.languages.len() == 0 {
        Json::Null
    } else {
        Json::texts(e.languages)
    };
    Fields::new().with("path", Json::text(f.path)).with("languages", languages).with(
        "counts",
        counts_json(e),
    ).with("parsing", parsing_json(f)).with("timings", timings_json(e, f)).with(
        "workers",
        Json::number(f.workers),
    ).with("batch_size", Json::number(f.batch_size)).with(
        "embedding_provider",
        Json::text(e.provider),
    ).with("assumptions", assumptions_json(t)).with(
        "estimate_runtime_seconds",
        Json::Real(f.runtime_seconds),
    ).done()
}

/// A batch size of at least one that was asked for is taken as it is, and otherwise, if none was asked for,
/// one that the environment gives; without either it is 2000. Zero stands for one.
pub proof fn law_batch_size_is_taken(inputs: ThroughputInputs, n: usize)
    ensures
        inputs.jina_batch_size == Some(n) && n >= 1 ==> throughput(inputs).jina_batch_size == n,
        inputs.jina_batch_size == Some(0usize) ==> throughput(inputs).jina_batch_size == 1,
        inputs.jina_batch_size is None && inputs.jina_batch_size_env is None ==> throughput(
            inputs,
        ).jina_batch_size == 2000,
        inputs.jina_batch_size is None && inputs.jina_batch_size_env is Some ==> {
            let given = parsed_number(inputs.jina_batch_size_env->0@, usize::MAX as nat);
            &&& given == Some(n as nat) && n >= 1 ==> throughput(inputs).jina_batch_size == n
            &&& given == Some(0nat) ==> throughput(inputs).jina_batch_size == 1
            &&& given is None ==> throughput(inputs).jina_batch_size == 2000
        },
{
}

/// The minutes per batch that were asked for are taken as they are if they are a number of at least a tenth,
/// and otherwise, if none were asked for, those that the environment gives; without either they are nine.
/// Less than a tenth, and what is no number, stands for a tenth.
pub proof fn law_batch_minutes_are_taken(inputs: ThroughputInputs, bits: u64)
    ensures
        ({
            let usable = 0x3FB9_9999_9999_999A <= bits <= 0x7FF0_0000_0000_0000;
            let asked = inputs.jina_batch_minutes == Some(bits) || (inputs.jina_batch_minutes is None
                && inputs.jina_batch_minutes_env == Some(bits));
            &&& asked && usable ==> throughput(inputs).jina_batch_minutes == bits
            &&& asked && !usable ==> throughput(inputs).jina_batch_minutes == 0x3FB9_9999_9999_999A
            &&& inputs.jina_batch_minutes is None && inputs.jina_batch_minutes_env is None
                ==> throughput(inputs).jina_batch_minutes == 0x4022_0000_0000_0000
        }),
{
}

/// A rate that was asked for is taken as it is if it is positive and finite, and otherwise one of the
/// environment that is; without either, that of the workers is.
pub proof fn law_rate_is_taken(inputs: ThroughputInputs, bits: u64, other: u64)
    ensures
        ({
            let rate = throughput(inputs).local_embeddings_per_minute;
            let usable = 0 < bits < 0x7FF0_0000_0000_0000;
            let asked_usable = inputs.local_throughput == Some(other) && 0 < other
                < 0x7FF0_0000_0000_0000;
            &&& inputs.local_throughput == Some(bits) && usable ==> rate == bits
            &&& inputs.local_throughput is None && inputs.local_throughput_env == Some(bits) && usable
                ==> rate == bits
            &&& inputs.local_throughput == Some(other) && !asked_usable
                && inputs.local_throughput_env == Some(bits) && usable ==> rate == bits
            &&& inputs.local_throughput is None && inputs.local_throughput_env is None ==> rate
                == inputs.default_local_rate
            &&& inputs.local_throughput == Some(other) && !asked_usable
                && inputs.local_throughput_env is None ==> rate == inputs.default_local_rate
            &&& inputs.local_throughput is None && inputs.local_throughput_env == Some(bits)
                && !usable ==> rate == inputs.default_local_rate
        }),
{
}

/// A number is kept exactly if its sign bit is not set, it is not zero, and it is neither infinite nor no
/// number: that is, if not all exponent bits are set.
pub proof fn law_only_positive_numbers_are_kept(bits: u64)
    ensures
        sanitized(None) is None,
        sanitized(Some(bits)) is Some <==> bits != 0 && bits / 0x8000_0000_0000_0000 == 0 && bits
            / 0x10_0000_0000_0000 % 0x800 != 0x7FF,
        sanitized(Some(bits)) is Some ==> sanitized(Some(bits)) == Some(bits),
{
}

/// A size in the environment is read as the numeral that it is, or not at all.
pub proof fn law_environment_size(text: &str, n: usize)
    ensures
        env_size(Some(text)) == Some(n) <==> parsed_number(text@, usize::MAX as nat) == Some(n as nat),
        env_size(None) is None,
{
}

/// A duration of hours, minutes and seconds is shown by those of them that are not zero, in this order, and
/// by its seconds if all are zero.
pub proof fn law_duration_shows_its_parts(h: nat, m: nat, s: nat)
    requires
        m < 60,
        s < 60,
    ensures
        ({
            let parts = duration_parts((h * 3600 + m * 60 + s) as int);
            let hours = if h > 0 {
                seq![decimal(h) + "h"@]
            } else {
                Seq::<Seq<char>>::empty()
            };
            let minutes = if m > 0 {
                seq![decimal(m) + "m"@]
            } else {
                Seq::<Seq<char>>::empty()
            };
            let seconds = if s > 0 || (h == 0 && m == 0) {
                seq![decimal(s) + "s"@]
            } else {
                Seq::<Seq<char>>::empty()
            };
            parts == hours + minutes + seconds
        }),
{
    let t = (h * 3600 + m * 60 + s) as int;
    assert(duration_fields(t) == (h as int, m as int, s as int));
    let parts = duration_parts(t);
    let hours = if h > 0 {
        seq![decimal(h) + "h"@]
    } else {
        Seq::<Seq<char>>::empty()
    };
    let minutes = if m > 0 {
        seq![decimal(m) + "m"@]
    } else {
        Seq::<Seq<char>>::empty()
    };
    let seconds = if s > 0 || (h == 0 && m == 0) {
        seq![decimal(s) + "s"@]
    } else {
        Seq::<Seq<char>>::empty()
    };
    assert(parts =~= hours + minutes + seconds);
}

proof fn lemma_negative_fields(t: int, m: nat, s: nat)
    requires
        s < 60,
        t < 0,
        -t == m * 60 + s,
    ensures
        duration_fields(t).0 <= 0,
        duration_fields(t).1 <= 0,
        duration_fields(t).2 == -(s as int),
{
    let size = -t;
    assert(size / 60 == m);
    assert(truncated_div(t, 60) == -(m as int));
    let rest = truncated_rem(t, 3600);
    assert(rest == -(size % 3600));
    assert(truncated_div(rest, 60) <= 0);
}

/// The parts of a duration are shown with a space between them; a negative duration is shown by the
/// seconds that are left of it after whole minutes, and one that is no number by a word.
pub proof fn law_duration_text(t: i64, m: nat, s: nat)
    requires
        s < 60,
    ensures
        duration_text(None) == "unknown"@,
        duration_text(Some(t)) == joined(duration_parts(t as int), " "@),
        t < 0 && -t == m * 60 + s ==> duration_text(Some(t)) == signed_decimal(-(s as int)) + "s"@,
{
    if t < 0 && -t == m * 60 + s {
        lemma_negative_fields(t as int, m, s);
        assert(duration_parts(t as int) =~= seq![signed_decimal(-(s as int)) + "s"@]);
    }
}

/// An estimate shows where it was made, each of its counts behind its own label, and how long everything
/// is expected to take.
pub proof fn law_estimate_shows_counts(e: Estimate)
    ensures
        ({
            let lines = first_estimate_lines(e);
            &&& shows(lines, "Path: "@ + e.path@)
            &&& shows(lines, "Languages: "@ + languages_text(e.languages@))
            &&& shows(lines, "Embedding provider (config): "@ + e.provider@)
            &&& shows(
                lines,
                "Files parsed: "@ + decimal(e.parsed_files as nat) + " / "@ + decimal(
                    e.total_files as nat,
                ) + " (failed: "@ + decimal(e.failed_files as nat) + ")"@,
            )
            &&& shows(lines, "Nodes: "@ + decimal(e.nodes as nat))
            &&& shows(lines, "Edges: "@ + decimal(e.edges as nat))
            &&& shows(lines, "Symbols: "@ + decimal(e.symbols as nat))
            &&& shows(lines, "Parsing time (measured): "@ + duration_text(e.parsing_seconds))
            &&& shows(
                lines,
                "Jina embeddings: "@ + duration_text(e.jina_seconds) + " ("@ + decimal(
                    e.jina_batches as nat,
                ) + " batches × "@ + decimal(e.jina_batch_size as nat) + " nodes)"@,
            )
            &&& shows(lines, "Total time (parsing + Jina): "@ + duration_text(e.total_jina_seconds))
        }),
{
    let lines = first_estimate_lines(e);
    lemma_shows(lines, 2, "Path: "@ + e.path@);
    lemma_shows(lines, 3, "Languages: "@ + languages_text(e.languages@));
    lemma_shows(lines, 4, "Embedding provider (config): "@ + e.provider@);
    lemma_shows(
        lines,
        6,
        "Files parsed: "@ + decimal(e.parsed_files as nat) + " / "@ + decimal(e.total_files as nat)
            + " (failed: "@ + decimal(e.failed_files as nat) + ")"@,
    );
    lemma_shows(lines, 7, "Nodes: "@ + decimal(e.nodes as nat));
    lemma_shows(lines, 8, "Edges: "@ + decimal(e.edges as nat));
    lemma_shows(lines, 9, "Symbols: "@ + decimal(e.symbols as nat));
    lemma_shows(lines, 10, "Parsing time (measured): "@ + duration_text(e.parsing_seconds));
    lemma_shows(
        lines,
        11,
        "Jina embeddings: "@ + duration_text(e.jina_seconds) + " ("@ + decimal(e.jina_batches as nat)
            + " batches × "@ + decimal(e.jina_batch_size as nat) + " nodes)"@,
    );
    lemma_shows(lines, 12, "Total time (parsing + Jina): "@ + duration_text(e.total_jina_seconds));
}

/// An estimate shows how long embeddings on this machine take, if that is known, and what it assumed.
pub proof fn law_estimate_shows_assumptions(e: Estimate, l: LocalEstimate)
    ensures
        shows(
            local_lines(Some(l)),
            "Local embeddings: "@ + duration_text(l.seconds) + " ("@ + l.rate@
                + " embeddings/min)"@,
        ),
        shows(
            local_lines(Some(l)),
            "Total time (parsing + local): "@ + duration_text(l.total_seconds),
        ),
        shows(local_lines(None), "Local embeddings: set --local-throughput to compare speed."@),
        shows(
            last_estimate_lines(e),
            "Assumptions: "@ + decimal(e.assumed_batch_size as nat) + " nodes/batch @ "@
                + e.assumed_batch_minutes@ + " min, local "@ + e.assumed_rate@
                + " embeddings/min baseline."@,
        ),
        shows(
            last_estimate_lines(e),
            "Estimation runtime: "@ + duration_text(e.runtime_seconds)
                + " (parser only, no DB writes)"@,
        ),
{
    lemma_shows(
        local_lines(Some(l)),
        0,
        "Local embeddings: "@ + duration_text(l.seconds) + " ("@ + l.rate@ + " embeddings/min)"@,
    );
    lemma_shows(
        local_lines(Some(l)),
        1,
        "Total time (parsing + local): "@ + duration_text(l.total_seconds),
    );
    lemma_shows(
        local_lines(None),
        0,
        "Local embeddings: set --local-throughput to compare speed."@,
    );
    lemma_shows(
        last_estimate_lines(e),
        0,
        "Assumptions: "@ + decimal(e.assumed_batch_size as nat) + " nodes/batch @ "@
            + e.assumed_batch_minutes@ + " min, local "@ + e.assumed_rate@
            + " embeddings/min baseline."@,
    );
    lemma_shows(
        last_estimate_lines(e),
        1,
        "Estimation runtime: "@ + duration_text(e.runtime_seconds) + " (parser only, no DB writes)"@,
    );
}

/// The languages of an estimate are shown, and put into its document, all of them and in their order; where
/// there are none, it is said that they are found out, and the document has nothing.
pub proof fn law_estimate_names_languages(languages: Seq<String>)
    ensures
        languages.len() == 0 ==> languages_text(languages) == "auto-detect"@,
        languages.len() == 0 ==> languages_document(languages) == JsonView::Null,
        languages.len() > 0 ==> languages_text(languages) == joined(texts(languages), ", "@),
        languages.len() > 0 ==> {
            &&& languages_document(languages) is List
            &&& languages_document(languages)->List_0.len() == languages.len()
            &&& forall|i: int|
                0 <= i < languages.len() ==> #[trigger] languages_document(languages)->List_0[i]
                    == JsonView::Text(languages[i]@)
        },
{
}

/// The document of an estimate has each count under its own name.
pub proof fn law_document_has_counts(e: Estimate)
    ensures
        has_field(counts_document(e), "total_files"@, JsonView::Number(e.total_files as nat)),
        has_field(counts_document(e), "parsed_files"@, JsonView::Number(e.parsed_files as nat)),
        has_field(counts_document(e), "failed_files"@, JsonView::Number(e.failed_files as nat)),
        has_field(counts_document(e), "nodes"@, JsonView::Number(e.nodes as nat)),
        has_field(counts_document(e), "edges"@, JsonView::Number(e.edges as nat)),
        has_field(counts_document(e), "symbols"@, JsonView::Number(e.symbols as nat)),
        counts_document(e)->Object_0.len() == 6,
{
    let d = counts_document(e);
    lemma_has_field(d, 0, "total_files"@, JsonView::Number(e.total_files as nat));
    lemma_has_field(d, 1, "parsed_files"@, JsonView::Number(e.parsed_files as nat));
    lemma_has_field(d, 2, "failed_files"@, JsonView::Number(e.failed_files as nat));
    lemma_has_field(d, 3, "nodes"@, JsonView::Number(e.nodes as nat));
    lemma_has_field(d, 4, "edges"@, JsonView::Number(e.edges as nat));
    lemma_has_field(d, 5, "symbols"@, JsonView::Number(e.symbols as nat));
}

/// The document of an estimate has what parsing took, and what was assumed, as it was measured and resolved.
pub proof fn law_document_has_figures(f: EstimateFigures, t: EmbeddingThroughputConfig)
    ensures
        has_field(parsing_document(f), "minutes"@, JsonView::Real(f.parsing_minutes)),
        has_field(parsing_document(f), "duration_seconds"@, JsonView::Real(f.parsing_seconds)),
        has_field(parsing_document(f), "total_lines"@, JsonView::Number(f.total_lines as nat)),
        has_field(parsing_document(f), "files_per_second"@, JsonView::Real(f.files_per_second)),
        has_field(parsing_document(f), "lines_per_second"@, JsonView::Real(f.lines_per_second)),
        parsing_document(f)->Object_0.len() == 5,
        has_field(
            assumptions_document(t),
            "jina_batch_size"@,
            JsonView::Number(t.jina_batch_size as nat),
        ),
        has_field(
            assumptions_document(t),
            "jina_batch_minutes"@,
            JsonView::Real(t.jina_batch_minutes),
        ),
        has_field(
            assumptions_document(t),
            "local_embeddings_per_minute"@,
            JsonView::Real(t.local_embeddings_per_minute),
        ),
        assumptions_document(t)->Object_0.len() == 3,
{
    let p = parsing_document(f);
    lemma_has_field(p, 0, "minutes"@, JsonView::Real(f.parsing_minutes));
    lemma_has_field(p, 1, "duration_seconds"@, JsonView::Real(f.parsing_seconds));
    lemma_has_field(p, 2, "total_lines"@, JsonView::Number(f.total_lines as nat));
    lemma_has_field(p, 3, "files_per_second"@, JsonView::Real(f.files_per_second));
    lemma_has_field(p, 4, "lines_per_second"@, JsonView::Real(f.lines_per_second));
    let a = assumptions_document(t);
    lemma_has_field(a, 0, "jina_batch_size"@, JsonView::Number(t.jina_batch_size as nat));
    lemma_has_field(a, 1, "jina_batch_minutes"@, JsonView::Real(t.jina_batch_minutes));
    lemma_has_field(
        a,
        2,
        "local_embeddings_per_minute"@,
        JsonView::Real(t.local_embeddings_per_minute),
    );
}

/// The document of an estimate has the timings of both kinds of embeddings; those on this machine are
/// nothing where they are not known.
pub proof fn law_document_has_timings(e: Estimate, f: EstimateFigures)
    ensures
        exists|jina: JsonView| #[trigger]
            has_field(timings_document(e, f), "jina"@, jina) && {
                &&& has_field(jina, "batches"@, JsonView::Number(e.jina_batches as nat))
                &&& has_field(jina, "batch_size"@, JsonView::Number(e.jina_batch_size as nat))
                &&& has_field(jina, "batch_minutes"@, JsonView::Real(f.jina_batch_minutes))
                &&& has_field(jina, "minutes"@, JsonView::Real(f.jina_minutes))
                &&& has_field(
                    jina,
                    "total_minutes_with_parsing"@,
                    JsonView::Real(f.total_jina_minutes),
                )
            },
        exists|local: JsonView| #[trigger]
            has_field(timings_document(e, f), "local"@, local) && {
                &&& has_field(local, "rate_per_minute"@, maybe_real_view(f.local_rate_per_minute))
                &&& has_field(local, "minutes"@, maybe_real_view(f.local_minutes))
                &&& has_field(
                    local,
                    "total_minutes_with_parsing"@,
                    maybe_real_view(f.total_local_minutes),
                )
            },
        timings_document(e, f)->Object_0.len() == 2,
{
    let d = timings_document(e, f);
    let jina = d->Object_0[0].1;
    lemma_has_field(d, 0, "jina"@, jina);
    lemma_has_field(jina, 0, "batches"@, JsonView::Number(e.jina_batches as nat));
    lemma_has_field(jina, 1, "batch_size"@, JsonView::Number(e.jina_batch_size as nat));
    lemma_has_field(jina, 2, "batch_minutes"@, JsonView::Real(f.jina_batch_minutes));
    lemma_has_field(jina, 3, "minutes"@, JsonView::Real(f.jina_minutes));
    lemma_has_field(jina, 4, "total_minutes_with_parsing"@, JsonView::Real(f.total_jina_minutes));
    let local = d->Object_0[1].1;
    lemma_has_field(d, 1, "local"@, local);
    lemma_has_field(local, 0, "rate_per_minute"@, maybe_real_view(f.local_rate_per_minute));
    lemma_has_field(local, 1, "minutes"@, maybe_real_view(f.local_minutes));
    lemma_has_field(
        local,
        2,
        "total_minutes_with_parsing"@,
        maybe_real_view(f.total_local_minutes),
    );
}

/// The document of an estimate has all of its parts under their names.
pub proof fn law_estimate_document_has_its_parts(
    e: Estimate,
    f: EstimateFigures,
    t: EmbeddingThroughputConfig,
)
    ensures
        ({
            let d = estimate_document(e, f, t);
            &&& has_field(d, "path"@, JsonView::Text(f.path@))
            &&& has_field(d, "languages"@, languages_document(e.languages@))
            &&& has_field(d, "counts"@, counts_document(e))
            &&& has_field(d, "parsing"@, parsing_document(f))
            &&& has_field(d, "timings"@, timings_document(e, f))
            &&& has_field(d, "workers"@, JsonView::Number(f.workers as nat))
            &&& has_field(d, "batch_size"@, JsonView::Number(f.batch_size as nat))
            &&& has_field(d, "embedding_provider"@, JsonView::Text(e.provider@))
            &&& has_field(d, "assumptions"@, assumptions_document(t))
            &&& has_field(d, "estimate_runtime_seconds"@, JsonView::Real(f.runtime_seconds))
            &&& d->Object_0.len() == 10
        }),
{
    let d = estimate_document(e, f, t);
    lemma_has_field(d, 0, "path"@, JsonView::Text(f.path@));
    lemma_has_field(d, 1, "languages"@, languages_document(e.languages@));
    lemma_has_field(d, 2, "counts"@, counts_document(e));
    lemma_has_field(d, 3, "parsing"@, parsing_document(f));
    lemma_has_field(d, 4, "timings"@, timings_document(e, f));
    lemma_has_field(d, 5, "workers"@, JsonView::Number(f.workers as nat));
    lemma_has_field(d, 6, "batch_size"@, JsonView::Number(f.batch_size as nat));
    lemma_has_field(d, 7, "embedding_provider"@, JsonView::Text(e.provider@));
    lemma_has_field(d, 8, "assumptions"@, assumptions_document(t));
    lemma_has_field(d, 9, "estimate_runtime_seconds"@, JsonView::Real(f.runtime_seconds));
}

/// Of an estimate, the title is bold, and what could be asked for is dimmed.
pub proof fn law_colours_of_an_estimate(e: Estimate, l: LocalEstimate)
    ensures
        shows_in(first_estimate_lines(e), Style::CyanBold, "📊 Indexing Estimate"@),
        shows_in(
            local_lines(None),
            Style::Dimmed,
            "Local embeddings: set --local-throughput to compare speed."@,
        ),
        first_estimate_lines(e).len() == 13,
        local_lines(Some(l)).len() == 2,
        local_lines(None).len() == 1,
        last_estimate_lines(e).len() == 2,
{
    lemma_shows_in(first_estimate_lines(e), 1, 0, Style::CyanBold, "📊 Indexing Estimate"@);
    lemma_shows_in(
        local_lines(None),
        0,
        0,
        Style::Dimmed,
        "Local embeddings: set --local-throughput to compare speed."@,
    );
}

} // verus!
