use codegraph::clock::{debug_log_file, debug_log_name, start_time_text, uptime, Timestamp, Uptime};
use codegraph::estimate::{self, EmbeddingThroughputConfig, Estimate, LocalEstimate};
use codegraph::estimate::{format_duration_minutes, resolve_throughput_config, ThroughputInputs};
use codegraph::memory::{estimate_available_memory_gb, optimize_for_memory, MemoryText};
use codegraph::report::{Report, Style};
use codegraph::text::{decimal_text, join, left_aligned_text, padded_decimal_text};
use codegraph::text::{parse_whole, right_aligned_text, same_text, signed_decimal_text};

fn at(secs: i64, nanos: u32) -> Timestamp {
    Timestamp { secs, nanos }
}

fn shown(report: &Report) -> Vec<String> {
    report
        .lines
        .iter()
        .map(|l| l.spans.iter().map(|s| s.text.as_str()).collect())
        .collect()
}

#[test]
fn numerals() {
    assert_eq!(decimal_text(0), "0");
    assert_eq!(decimal_text(u64::MAX), "18446744073709551615");
    assert_eq!(signed_decimal_text(-7), "-7");
    assert_eq!(signed_decimal_text(i64::MIN), "-9223372036854775808");
    for n in [0u64, 9, 10, 4096, u64::MAX] {
        assert_eq!(parse_whole(&decimal_text(n), u64::MAX), Some(n));
    }
    assert_eq!(parse_whole("+12", 20), Some(12));
    assert_eq!(parse_whole("21", 20), None);
    assert_eq!(parse_whole("", 20), None);
    assert_eq!(parse_whole("+", 20), None);
    assert_eq!(parse_whole(" 1", 20), None);
}

#[test]
fn alignment() {
    assert_eq!(padded_decimal_text(42, 6), "    42");
    assert_eq!(padded_decimal_text(1234567, 6), "1234567");
    assert_eq!(left_aligned_text("µs", 4), "µs  ");
    assert_eq!(left_aligned_text("long", 2), "long");
    assert_eq!(right_aligned_text("90.0", 6), "  90.0");
}

#[test]
fn joining_and_comparing() {
    let words = |w: &[&str]| -> Vec<String> { w.iter().map(|s| s.to_string()).collect() };
    assert_eq!(join(&words(&[]), ", "), "");
    assert_eq!(join(&words(&["a"]), ", "), "a");
    assert_eq!(join(&words(&["a", "b", "c"]), ", "), "a, b, c");
    assert!(same_text("é", "é"));
    assert!(!same_text("ab", "abc"));
    assert!(!same_text("abd", "abc"));
}

#[test]
fn uptimes() {
    assert_eq!(uptime(at(0, 0), at(7384, 0)), Uptime { hours: 2, minutes: 3 });
    assert_eq!(uptime(at(0, 1), at(3600, 0)), Uptime { hours: 0, minutes: 59 });
    assert_eq!(uptime(at(5, 0), at(5, 0)), Uptime { hours: 0, minutes: 0 });
    assert_eq!(uptime(at(3700, 0), at(0, 0)), Uptime { hours: -1, minutes: u32::MAX });
    assert_eq!(uptime(at(59, 0), at(0, 0)), Uptime { hours: 0, minutes: 0 });
}

#[test]
fn uptimes_across_leap_seconds() {
    assert_eq!(uptime(at(59, 1_500_000_000), at(120, 0)), Uptime { hours: 0, minutes: 1 });
    assert_eq!(uptime(at(59, 1_000_000_000), at(60, 0)), Uptime { hours: 0, minutes: 0 });
    assert_eq!(uptime(at(0, 0), at(59, 1_000_000_000)), Uptime { hours: 0, minutes: 1 });
    assert_eq!(
        uptime(at(120, 0), at(59, 1_500_000_000)),
        Uptime { hours: 0, minutes: u32::MAX }
    );
    // 23:59:60 of one day to 00:00:59 of the next: earlier in the day, so no second is added.
    assert_eq!(uptime(at(86_399, 1_000_000_000), at(86_459, 0)), Uptime { hours: 0, minutes: 0 });
}

#[test]
fn times_are_written() {
    assert_eq!(start_time_text(at(0, 2_000_000_000)), None);
    assert_eq!(start_time_text(at(0, 1_000_000_000)), None);
    assert_eq!(start_time_text(at(0, 0)).unwrap(), "1970-01-01 00:00:00 UTC");
    assert_eq!(start_time_text(at(1_700_000_000, 9)).unwrap(), "2023-11-14 22:13:20 UTC");
    assert_eq!(start_time_text(at(i64::MAX, 0)), None);
    assert_eq!(
        debug_log_file(at(1_700_000_000, 0)).unwrap(),
        "index-debug-20231114T221320.log"
    );
    assert_eq!(debug_log_file(at(i64::MIN, 0)), None);
    assert_eq!(debug_log_name("x"), "index-debug-x.log");
}

#[test]
fn memory_of_the_system() {
    let meminfo = "MemFree: 5 kB\nMemTotal:       65780000 kB\nMemTotal: 1 kB\n";
    assert_eq!(estimate_available_memory_gb(MemoryText::MemInfo(meminfo)), 62);
    let later = "MemTotal: many kB\r\nMemTotal:\nMemTotal:\t33554432";
    assert_eq!(estimate_available_memory_gb(MemoryText::MemInfo(later)), 32);
    assert_eq!(estimate_available_memory_gb(MemoryText::MemInfo(" MemTotal: 1048576")), 16);
    assert_eq!(estimate_available_memory_gb(MemoryText::MemInfo("MemTotal:5 1048576")), 1);
    assert_eq!(estimate_available_memory_gb(MemoryText::MemInfo("")), 16);
    assert_eq!(estimate_available_memory_gb(MemoryText::Sysctl("137438953472\n")), 128);
    assert_eq!(estimate_available_memory_gb(MemoryText::Sysctl("no")), 16);
    assert_eq!(estimate_available_memory_gb(MemoryText::Unknown), 16);
}

#[test]
fn batches_and_workers_by_memory() {
    let other = [(0, 16), (15, 16), (16, 32), (32, 64), (64, 128), (127, 128), (128, 256)];
    for (gb, batch) in other {
        assert_eq!(optimize_for_memory(gb, 100, 9, "openai"), (batch, 9));
    }
    let ollama = [(0, 16), (16, 24), (32, 32), (64, 48), (95, 48), (96, 64), (500, 64)];
    for (gb, batch) in ollama {
        assert_eq!(optimize_for_memory(gb, 100, 9, "ollama"), (batch, 9));
    }
    let workers =
        [(15, 4), (16, 6), (32, 8), (47, 8), (48, 10), (64, 12), (96, 14), (128, 16)];
    for (gb, n) in workers {
        assert_eq!(optimize_for_memory(gb, 50, 4, "ollama"), (50, n));
    }
}

#[test]
fn durations() {
    let d = |s: i64| format_duration_minutes(Some(s));
    assert_eq!(format_duration_minutes(None), "unknown");
    assert_eq!(d(0), "0s");
    assert_eq!(d(59), "59s");
    assert_eq!(d(60), "1m");
    assert_eq!(d(3600), "1h");
    assert_eq!(d(3661), "1h 1m 1s");
    assert_eq!(d(7205), "2h 5s");
    assert_eq!(d(-61), "-1s");
    assert_eq!(d(-120), "0s");
    assert_eq!(d(i64::MAX), "2562047788015215h 30m 7s");
    assert_eq!(d(i64::MIN), "-8s");
}

fn inputs<'a>() -> ThroughputInputs<'a> {
    ThroughputInputs {
        jina_batch_size: None,
        jina_batch_size_env: None,
        jina_batch_minutes: None,
        jina_batch_minutes_env: None,
        local_throughput: None,
        local_throughput_env: None,
        default_local_rate: 14400f64.to_bits(),
    }
}

fn resolved(i: ThroughputInputs) -> (usize, f64, f64) {
    let c = resolve_throughput_config(i);
    (
        c.jina_batch_size,
        f64::from_bits(c.jina_batch_minutes),
        f64::from_bits(c.local_embeddings_per_minute),
    )
}

#[test]
fn assumptions_by_default() {
    assert_eq!(resolved(inputs()), (2000, 9.0, 14400.0));
    assert_eq!(f64::from_bits(estimate::LEAST_JINA_BATCH_MINUTES), 0.1);
    assert_eq!(f64::from_bits(estimate::INFINITY), f64::INFINITY);
    assert_eq!(estimate::counted_workers(0), 1);
    assert_eq!(estimate::counted_workers(5), 5);
}

#[test]
fn assumptions_from_request_and_environment() {
    let mut i = inputs();
    i.jina_batch_size_env = Some("500");
    i.jina_batch_minutes_env = Some(2.5f64.to_bits());
    i.local_throughput_env = Some(100f64.to_bits());
    assert_eq!(resolved(i), (500, 2.5, 100.0));
    let mut i = inputs();
    i.jina_batch_size = Some(0);
    i.jina_batch_size_env = Some("500");
    i.jina_batch_minutes = Some(0.01f64.to_bits());
    i.jina_batch_minutes_env = Some(2.5f64.to_bits());
    i.local_throughput = Some(50f64.to_bits());
    i.local_throughput_env = Some(100f64.to_bits());
    assert_eq!(resolved(i), (1, 0.1, 50.0));
}

#[test]
fn odd_assumptions_give_way() {
    for odd in [f64::NAN, -3.0, 0.0, -0.0, f64::NEG_INFINITY] {
        let mut i = inputs();
        i.jina_batch_size_env = Some("many");
        i.jina_batch_minutes = Some(odd.to_bits());
        i.local_throughput = Some(odd.to_bits());
        assert_eq!(resolved(i), (2000, odd.max(0.1), 14400.0));
    }
    let mut i = inputs();
    i.jina_batch_minutes = Some(f64::INFINITY.to_bits());
    i.local_throughput = Some(f64::INFINITY.to_bits());
    i.local_throughput_env = Some(7f64.to_bits());
    assert_eq!(resolved(i), (2000, f64::INFINITY, 7.0));
    assert_eq!(estimate::sanitize_positive(Some(1)), Some(1));
    assert_eq!(estimate::env_usize(Some("18446744073709551616")), None);
    assert_eq!(
        resolve_throughput_config(inputs()),
        EmbeddingThroughputConfig {
            jina_batch_size: 2000,
            jina_batch_minutes: 9f64.to_bits(),
            local_embeddings_per_minute: 14400f64.to_bits(),
        }
    );
}

#[test]
fn an_estimate_is_shown() {
    let languages = vec!["rust".to_string(), "go".to_string()];
    let mut e = Estimate {
        path: "/p",
        languages: &languages,
        provider: "jina",
        parsed_files: 9,
        total_files: 10,
        failed_files: 1,
        nodes: 100,
        edges: 200,
        symbols: 300,
        parsing_seconds: Some(61),
        jina_seconds: Some(540),
        jina_batches: 1,
        jina_batch_size: 2000,
        total_jina_seconds: Some(601),
        local: Some(LocalEstimate {
            seconds: Some(1),
            rate: "14400",
            total_seconds: None,
        }),
        assumed_batch_size: 2000,
        assumed_batch_minutes: "9.0",
        assumed_rate: "14400",
        runtime_seconds: Some(62),
    };
    let line = estimate::estimating_line("/p");
    assert_eq!(line.spans[0].style, Style::CyanBold);
    assert_eq!(line.spans[2].text, "/p");
    let r = estimate::present_estimate_output(&e);
    assert_eq!(
        shown(&r),
        [
            "",
            "📊 Indexing Estimate",
            "Path: /p",
            "Languages: rust, go",
            "Embedding provider (config): jina",
            "",
            "Files parsed: 9 / 10 (failed: 1)",
            "Nodes: 100",
            "Edges: 200",
            "Symbols: 300",
            "Parsing time (measured): 1m 1s",
            "Jina embeddings: 9m (1 batches × 2000 nodes)",
            "Total time (parsing + Jina): 10m 1s",
            "Local embeddings: 1s (14400 embeddings/min)",
            "Total time (parsing + local): unknown",
            "Assumptions: 2000 nodes/batch @ 9.0 min, local 14400 embeddings/min baseline.",
            "Estimation runtime: 1m 2s (parser only, no DB writes)",
        ]
    );
    assert_eq!(r.lines[1].spans[0].style, Style::CyanBold);
    let none = vec![];
    e.languages = &none;
    e.local = None;
    let lines = shown(&estimate::present_estimate_output(&e));
    assert_eq!(lines[3], "Languages: auto-detect");
    assert_eq!(lines[13], "Local embeddings: set --local-throughput to compare speed.");
    assert_eq!(lines.len(), 16);
}
