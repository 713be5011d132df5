use codegraph::agent::{agent_report, analysis_types, mcp_tools, AgentConfig, ContextTier};
use codegraph::clock::Timestamp;
use codegraph::config::{self, ConfigFile, ConfigValues, FilePlan, Settings};
use codegraph::error::{ProcessError, Refusal};
use codegraph::indexing::{self, EstimateSettings, IndexRequest, IndexSettings, IndexStats};
use codegraph::indexing::{IndexTier, IndexingTier};
use codegraph::launch::{Arg, Transport};
use codegraph::process::{ProcessInfo, ProcessStatus};
use codegraph::report::{Line, Report, Style};
use codegraph::serve::{self, Moment, Security, Start, StartError, StartEvent};
use codegraph::serve::{StartRequest, StartState};
use codegraph::status;
use codegraph::watch::{self, DaemonStatus, DaemonStop, DaemonStopAction, DaemonStopEvent};
use codegraph::watch::{DaemonRun, DaemonStopState, WatchSettings};
use std::path::PathBuf;

fn shown_line(line: &Line) -> String {
    line.spans.iter().map(|s| s.text.as_str()).collect()
}

fn shown(report: &Report) -> Vec<String> {
    report.lines.iter().map(shown_line).collect()
}

fn styles(line: &Line) -> Vec<Style> {
    line.spans.iter().map(|s| s.style).collect()
}

fn info(config_path: Option<PathBuf>) -> ProcessInfo {
    ProcessInfo {
        pid: 41,
        transport: "stdio".to_string(),
        config_path,
        start_time: Timestamp { secs: 1_700_000_000, nanos: 500_000_000 },
        status: ProcessStatus::Running,
    }
}

#[test]
fn status_of_a_running_server() {
    let now = Timestamp { secs: 1_700_007_384, nanos: 0 };
    let r = status::status_report(&info(None), now, false, "").unwrap();
    assert_eq!(
        shown(&r),
        [
            "CodeGraph MCP Server Status",
            "",
            "Server: Running",
            "Transport: stdio",
            "Process ID: 41",
            "Uptime: 2h 3m",
        ]
    );
    assert_eq!(styles(&r.lines[0]), [Style::BlueBold]);
    assert_eq!(styles(&r.lines[2]), [Style::Plain, Style::Green]);
}

#[test]
fn status_with_details() {
    let now = Timestamp { secs: 1_700_000_001, nanos: 0 };
    let with = info(Some(PathBuf::from("c.toml")));
    let r = status::status_report(&with, now, true, "\"c.toml\"").unwrap();
    assert_eq!(
        shown(&r)[6..],
        [
            "",
            "Detailed Information:",
            "  Start Time: 2023-11-14 22:13:20 UTC",
            "  Config File: \"c.toml\"",
        ]
    );
    let r = status::status_report(&info(None), now, true, "unused").unwrap();
    assert_eq!(r.lines.len(), 9);
    let mut far = info(None);
    far.start_time.secs = i64::MAX;
    assert!(status::status_report(&far, now, true, "").is_none());
    assert!(status::status_report(&far, now, false, "").is_some());
    let r = status::detailed_report(&info(None), now, "then", "");
    assert_eq!(shown(&r)[8], "  Start Time: then");
}

#[test]
fn status_without_a_server() {
    let r = status::not_running_report("Process information not found");
    assert_eq!(
        shown(&r)[2..],
        ["Server: Not Running", "Error: Process information not found"]
    );
    assert_eq!(styles(&r.lines[2]), [Style::Plain, Style::Red]);
}

#[test]
fn status_by_what_was_found() {
    let now = Timestamp { secs: 1_700_000_001, nanos: 0 };
    let report = |found: Result<ProcessInfo, ProcessError>| {
        shown(&status::found_report(&found, 77, now, false, "").unwrap())
    };
    assert_eq!(
        report(Err(ProcessError::InfoNotFound)),
        ["CodeGraph MCP Server Status", "", "Server: Running", "Process ID: 77"]
    );
    assert_eq!(
        report(Err(ProcessError::NotRunning))[2..],
        ["Server: Not Running", "Error: Server is not running"]
    );
    assert_eq!(report(Ok(info(None)))[4], "Process ID: 41");
    let mut odd = info(None);
    odd.start_time.nanos = 3_000_000_000;
    assert!(status::found_report(&Ok(odd), 41, now, true, "").is_none());
}

#[test]
fn stopping_is_announced() {
    assert_eq!(shown(&status::stopping_notice(false)), ["Stopping CodeGraph MCP Server..."]);
    assert_eq!(
        shown(&status::stopping_notice(true)),
        ["Stopping CodeGraph MCP Server...", "Force stopping server"]
    );
    assert_eq!(shown(&status::stopped_notice()), ["✓ Server stopped"]);
}

fn request(transport: Transport) -> StartRequest {
    StartRequest {
        transport,
        background: false,
        disable_daemon: false,
        enable_daemon: false,
        auto_start: Some(true),
        tls: false,
        has_cert: false,
        has_key: false,
    }
}

#[test]
fn the_daemon_is_started_by_priority() {
    assert!(!serve::should_start_daemon(true, true, true));
    assert!(serve::should_start_daemon(false, true, false));
    assert!(serve::should_start_daemon(false, false, true));
    assert!(!serve::should_start_daemon(false, false, false));
    let mut r = request(Transport::Stdio);
    assert_eq!(Start::begin(r).state, StartState::StartDaemon);
    r.auto_start = None;
    r.enable_daemon = true;
    assert_eq!(Start::begin(r).state, StartState::Open(Security::Plain));
}

#[test]
fn a_server_with_its_daemon() {
    let s = Start::begin(request(Transport::Stdio)).advance(StartEvent::DaemonStarted);
    assert!(s.daemon);
    let s = s.advance(StartEvent::Opened);
    assert_eq!(s.state, StartState::Serve);
    let s = s.advance(StartEvent::Served);
    assert_eq!(s.state, StartState::StopDaemon);
    assert_eq!(s.advance(StartEvent::DaemonStopped).state, StartState::Done);
}

#[test]
fn a_server_without_its_daemon() {
    let s = Start::begin(request(Transport::Http)).advance(StartEvent::DaemonNotStarted);
    assert!(!s.daemon);
    assert_eq!(s.state, StartState::Open(Security::Plain));
    let s = s.advance(StartEvent::Opened).advance(StartEvent::Served);
    assert_eq!(s.state, StartState::Done);
}

#[test]
fn servers_that_fail() {
    let open = Start::begin(request(Transport::Stdio)).advance(StartEvent::DaemonNotStarted);
    let failed = open.advance(StartEvent::NotOpened("x".to_string()));
    assert_eq!(failed.state, StartState::Failed(StartError::NotOpened("x".to_string())));
    let served = Start::begin(request(Transport::Stdio))
        .advance(StartEvent::DaemonStarted)
        .advance(StartEvent::Opened)
        .advance(StartEvent::ServeFailed("y".to_string()));
    assert_eq!(served.state, StartState::Failed(StartError::Failed("y".to_string())));

    let mut tls = request(Transport::Http);
    tls.auto_start = None;
    tls.tls = true;
    tls.has_cert = true;
    assert_eq!(Start::begin(tls).state, StartState::Failed(StartError::TlsIncomplete));
    tls.has_cert = false;
    tls.has_key = true;
    assert_eq!(Start::begin(tls).state, StartState::Failed(StartError::TlsIncomplete));
    tls.background = true;
    assert_eq!(Start::begin(tls).state, StartState::Failed(StartError::TlsIncomplete));
}

#[test]
fn tls_opens_a_secured_transport() {
    let mut tls = request(Transport::Http);
    tls.auto_start = None;
    assert_eq!(Start::begin(tls).state, StartState::Open(Security::Plain));
    tls.tls = true;
    tls.has_cert = true;
    tls.has_key = true;
    assert_eq!(Start::begin(tls).state, StartState::Open(Security::Tls));
    tls.auto_start = Some(true);
    let s = Start::begin(tls).advance(StartEvent::DaemonStarted);
    assert_eq!(s.state, StartState::Open(Security::Tls));
    let r = serve::moment_report(Transport::Http, Moment::Opened, Security::Tls, "h:1");
    assert_eq!(shown(&r)[1], "🚀 Listening on https://h:1");
}

#[test]
fn a_server_in_the_background() {
    let mut r = request(Transport::Http);
    r.background = true;
    let s = Start::begin(r);
    assert_eq!(s.state, StartState::Detach);
    assert_eq!(s.advance(StartEvent::Detached).state, StartState::Done);
    let failed = Start::begin(r).advance(StartEvent::NotDetached("x".to_string()));
    assert_eq!(failed.state, StartState::Failed(StartError::NotDetached("x".to_string())));
    assert!(!failed.daemon);
    assert_eq!(
        StartError::NotDetached("x".to_string()).message(Transport::Http, "h:1"),
        "x"
    );
}

#[test]
fn pages_from_anywhere() {
    assert!(serve::cors_headers(false).is_empty());
    let headers = serve::cors_headers(true);
    assert_eq!(headers[0], ("access-control-allow-origin", "*"));
    assert_eq!(headers.len(), 4);
}

#[test]
fn messages_of_servers_that_fail() {
    let x = || "x".to_string();
    let a = "h:1";
    assert_eq!(
        StartError::TlsIncomplete.message(Transport::Http, a),
        "TLS enabled but certificate or key not provided. Use --cert and --key"
    );
    assert_eq!(
        StartError::NotOpened(x()).message(Transport::Stdio, a),
        "MCP server startup failed: x"
    );
    assert_eq!(
        StartError::NotOpened(x()).message(Transport::Http, a),
        "Failed to bind to h:1: x"
    );
    assert_eq!(StartError::Failed(x()).message(Transport::Stdio, a), "Server error: x");
    assert_eq!(StartError::Failed(x()).message(Transport::Http, a), "HTTP server error: x");
}

#[test]
fn notices_of_a_start() {
    assert_eq!(serve::http_address("127.0.0.1", 3000), "127.0.0.1:3000");
    let r = serve::moment_report(Transport::Http, Moment::Opened, Security::Plain, "127.0.0.1:3000");
    assert_eq!(shown(&r)[1], "🚀 Listening on http://127.0.0.1:3000");
    assert_eq!(r.lines.len(), 10);
    assert_eq!(
        shown(&serve::moment_report(Transport::Stdio, Moment::Starting, Security::Plain, "")),
        ["Starting CodeGraph MCP Server with 100% Official SDK..."]
    );
    assert_eq!(
        shown(&serve::moment_report(Transport::Stdio, Moment::Opened, Security::Plain, "")),
        ["🚀 Official MCP server started with revolutionary capabilities"]
    );
    assert_eq!(
        shown(&serve::moment_report(Transport::Stdio, Moment::SetUp, Security::Plain, "")),
        ["✅ Revolutionary CodeGraph MCP server ready with 100% protocol compliance"]
    );
    assert_eq!(
        shown(&serve::moment_report(Transport::Http, Moment::Starting, Security::Plain, "")),
        ["Starting CodeGraph MCP Server with HTTP transport..."]
    );
    assert_eq!(
        shown(&serve::moment_report(Transport::Http, Moment::SetUp, Security::Plain, "")),
        ["📡 Configuring StreamableHTTP with SSE keep-alive (15s)"]
    );
    assert_eq!(shown_line(&serve::daemon_watching("/p")), "🔄 Daemon watching: /p");
    assert_eq!(
        shown_line(&serve::daemon_not_started(Transport::Stdio, "x")),
        "⚠️  Daemon failed to start: x (MCP server continuing)"
    );
    assert_eq!(
        shown_line(&serve::daemon_not_started(Transport::Http, "x")),
        "⚠️  Daemon failed to start: x (HTTP server continuing)"
    );
    assert_eq!(
        shown_line(&serve::not_opened("x")),
        "❌ Failed to start official MCP server: x"
    );
}

#[test]
fn notices_after_a_start() {
    assert_eq!(
        shown(&serve::dual_started("h", 3000, 8192, 11, 12)),
        [
            "✓ MCP server started with dual transport",
            "  STDIO: buffer size 8192 (PID: 11)",
            "  HTTP: http://h:3000 (PID: 12)",
        ]
    );
    assert!(serve::background_notice(false, Some("x")).lines.is_empty());
    assert_eq!(shown(&serve::background_notice(true, None)), ["Running in daemon mode"]);
    assert_eq!(
        shown(&serve::background_notice(true, Some("\"a.pid\""))),
        ["Running in daemon mode", "PID file: \"a.pid\""]
    );
}

#[test]
fn the_watched_directory() {
    let p = |s: &str| PathBuf::from(s);
    assert_eq!(serve::watch_root(Some(p("a")), Some(p("b")), p("c")), p("a"));
    assert_eq!(serve::watch_root(None, Some(p("b")), p("c")), p("b"));
    assert_eq!(serve::watch_root(None, None, p("c")), p("c"));
}

#[test]
fn one_daemon_per_project() {
    assert_eq!(watch::may_start(false, "x"), Ok(()));
    assert_eq!(
        watch::may_start(true, "\"p\""),
        Err("Daemon already running for this project (PID file: \"p\")".to_string())
    );
    assert_eq!(shown_line(&watch::starting_line("/p")), "🚀 Starting watch daemon for: /p");
    let s = WatchSettings::new(None, vec!["t".to_string()], vec![], PathBuf::from("/p"));
    assert!(s.languages.is_empty());
    assert_eq!(s.exclude_patterns, ["t"]);
    assert_eq!(
        (s.debounce_ms, s.batch_timeout_ms, s.health_check_interval_secs),
        (30, 200, 30)
    );
}

#[test]
fn a_daemon_runs_in_the_background_by_default() {
    assert_eq!(watch::daemon_run(false), DaemonRun::Background);
    assert_eq!(watch::daemon_run(true), DaemonRun::Foreground);
    assert_eq!(
        shown(&watch::foreground_notice()),
        ["Running in foreground. Press Ctrl+C to stop."]
    );
    assert_eq!(
        shown(&watch::background_notice(77)),
        [
            "✅ Daemon running in background (PID: 77)",
            "Run 'codegraph daemon stop' to stop it.",
        ]
    );
    let words = |w: &[&str]| -> Vec<String> { w.iter().map(|s| s.to_string()).collect() };
    let s = WatchSettings::new(
        Some(words(&["rust", "go"])),
        words(&["target", "-x"]),
        words(&["src"]),
        PathBuf::from("/p"),
    );
    let text = |a: &str| Arg::Text(a.to_string());
    assert_eq!(
        s.background_args(),
        [
            text("daemon"),
            text("start"),
            Arg::Path(PathBuf::from("/p")),
            text("--foreground"),
            text("--languages=rust,go"),
            text("--exclude=target"),
            text("--exclude=-x"),
            text("--include=src"),
        ]
    );
    let s = WatchSettings::new(None, vec![], vec![], PathBuf::from("/p"));
    assert_eq!(s.background_args().len(), 4);
}

#[test]
fn the_end_of_a_daemon() {
    let s = DaemonStop::begin(Some(9));
    assert_eq!(s.action(), DaemonStopAction::SendTerm(9));
    assert_eq!(shown(&s.notice("/p")), ["🛑 Stopping daemon (PID: 9)..."]);
    let s = s.advance(DaemonStopEvent::Sent);
    assert_eq!(s.action(), DaemonStopAction::Sleep(2));
    assert_eq!(shown(&s.notice("/p")), ["✅ Stop signal sent successfully"]);
    let s = s.advance(DaemonStopEvent::Waited);
    assert_eq!(s.action(), DaemonStopAction::Ask);
    assert!(s.notice("/p").lines.is_empty());
    let s = s.advance(DaemonStopEvent::Checked(false));
    assert_eq!(s.action(), DaemonStopAction::Nothing);
    assert_eq!(shown(&s.notice("/p")), ["✅ Daemon stopped"]);
    assert_eq!(s.failure(), None);
}

#[test]
fn daemons_that_do_not_end() {
    let s = DaemonStop::begin(Some(9))
        .advance(DaemonStopEvent::Sent)
        .advance(DaemonStopEvent::Waited)
        .advance(DaemonStopEvent::Checked(true));
    assert_eq!(s.state, DaemonStopState::Seen(true));
    assert_eq!(
        shown(&s.notice("/p")),
        ["⚠️  Daemon still running. May take a moment to shut down."]
    );
    let refused = watch::signal_failure(Refusal::Signal, 9, "EPERM");
    assert_eq!(refused, "kill(SIGTERM) failed: EPERM");
    let s = DaemonStop::begin(Some(9)).advance(DaemonStopEvent::Refused(refused));
    assert_eq!(
        s.failure(),
        Some("Failed to send stop signal: kill(SIGTERM) failed: EPERM".to_string())
    );
    assert_eq!(watch::signal_failure(Refusal::OpenProcess, 9, ""), "OpenProcess(9) failed");
    assert_eq!(
        watch::signal_failure(Refusal::TerminateProcess, 9, ""),
        "TerminateProcess(9) failed"
    );
    let none = DaemonStop::begin(None);
    assert_eq!(none.action(), DaemonStopAction::Nothing);
    assert_eq!(shown(&none.notice("/p")), ["No daemon running for: /p"]);
}

#[test]
fn status_of_a_daemon() {
    let s = DaemonStatus::new(Some(9), true);
    assert_eq!(
        shown(&s.report("/p", "/p/d.pid")),
        [
            "📊 Watch Daemon Status",
            "   Project: /p",
            "   PID file: /p/d.pid",
            "   Status: Running (PID: 9)",
        ]
    );
    let stale = DaemonStatus::new(Some(9), false);
    assert_eq!(
        shown(&stale.report("/p", "f"))[3..],
        [
            "   Status: Stopped",
            "   ⚠️  Stale PID file detected. Run 'daemon start' to clean up.",
        ]
    );
    let none = DaemonStatus::new(None, true);
    assert!(!none.running);
    assert_eq!(none.report("/p", "f").lines.len(), 4);
}

#[test]
fn files_are_not_overwritten_without_force() {
    assert_eq!(config::plan_file(true, false), FilePlan::Keep);
    assert_eq!(config::plan_file(true, true), FilePlan::Create);
    assert_eq!(config::plan_file(false, false), FilePlan::Create);
    assert_eq!(
        shown(&config::file_report(ConfigFile::Settings, FilePlan::Keep, "c")),
        ["⚠️  Configuration file already exists: c", "   Use --force to overwrite"]
    );
    assert_eq!(
        shown(&config::file_report(ConfigFile::Environment, FilePlan::Keep, "e"))[0],
        "⚠️  Environment file already exists: e"
    );
    assert_eq!(
        shown(&config::file_report(ConfigFile::Settings, FilePlan::Create, "c")),
        ["✓ Created config file: c"]
    );
    assert_eq!(
        shown(&config::file_report(ConfigFile::Environment, FilePlan::Create, "e")),
        ["✓ Created environment file: e"]
    );
}

#[test]
fn a_configuration_is_set_up() {
    assert_eq!(
        shown(&config::init_opening()),
        ["Initializing CodeGraph global configuration...", ""]
    );
    assert_eq!(shown_line(&config::directory_created("d")), "✓ Created directory: d");
    let r = shown(&config::init_closing("E", "C"));
    assert_eq!(r.len(), 15);
    assert_eq!(r[4], "1. Edit E to configure your API keys and preferences");
    assert_eq!(r[11], "  3. Global E");
    assert_eq!(r[13], "  5. Global C");
    assert!(config::ENV_TEMPLATE.starts_with("# CodeGraph Global Configuration\n"));
    assert!(config::ENV_TEMPLATE.contains("\nCODEGRAPH_EMBEDDING_PROVIDER=auto\n"));
    assert!(config::ENV_TEMPLATE.ends_with("# RUST_LOG=warn\n"));
}

fn settings<'a>() -> Settings<'a> {
    Settings {
        embedding_provider: "ollama",
        embedding_model: None,
        embedding_dimension: 384,
        jina_api_base: "https://api",
        jina_late_chunking: true,
        jina_task: "code.query",
        rerank_provider: "None",
        rerank_top_n: 10,
        rerank_jina_model: None,
        rerank_ollama_model: None,
        llm_provider: "lmstudio",
        llm_enabled: false,
        llm_model: None,
        llm_context_window: 32000,
    }
}

#[test]
fn a_short_configuration_is_shown() {
    assert_eq!(
        shown(&config::show_report(&settings())),
        [
            "Current Configuration:",
            "  Embedding Provider: ollama",
            "  Vector Dimension: 384",
            "",
            "  Reranking Settings:",
            "    Provider: None",
            "    Top-N: 10",
            "",
            "  LLM Settings:",
            "    Provider: lmstudio",
            "    Enabled: no (context-only)",
            "    Context Window: 32000",
        ]
    );
}

#[test]
fn a_full_configuration_is_shown() {
    let mut s = settings();
    s.embedding_provider = "jina";
    s.embedding_model = Some("m1");
    s.rerank_jina_model = Some("m2");
    s.rerank_ollama_model = Some("m3");
    s.llm_enabled = true;
    s.llm_model = Some("m4");
    let r = config::show_report(&s);
    let lines = shown(&r);
    assert_eq!(
        lines[2..9],
        [
            "  Embedding Model: m1",
            "  Vector Dimension: 384",
            "",
            "  Jina Embedding Settings:",
            "    API Base: https://api",
            "    Late Chunking: true",
            "    Task: code.query",
        ]
    );
    assert_eq!(lines[13], "    Jina Model: m2");
    assert_eq!(lines[14], "    Ollama Model: m3");
    assert_eq!(lines[18], "    Enabled: yes");
    assert_eq!(styles(&r.lines[18]), [Style::Plain, Style::Green]);
    assert_eq!(lines[19], "    Model: m4");
}

#[test]
fn small_configuration_commands() {
    let set = config::set_line("k", "v");
    assert_eq!(shown_line(&set), "Set k = v");
    assert_eq!(styles(&set), [Style::Plain, Style::Yellow, Style::Plain, Style::Green]);
    assert_eq!(shown_line(&config::get_line("k", Some("v"))), "k: v");
    assert_eq!(shown_line(&config::get_line("k", None)), "k: not set");
    assert_eq!(shown_line(&config::validate(None).unwrap()), "✓ Configuration is valid");
    assert_eq!(
        config::validate(Some("no such file")),
        Err("Configuration is not valid: no such file".to_string())
    );
    assert_eq!(shown_line(&config::database_line()), "✓ SurrealDB connectivity verified");
    assert_eq!(config::asked_or(Some("a".to_string()), "b".to_string()), "a");
    assert_eq!(config::asked_or(None, "b".to_string()), "b");
}

#[test]
fn values_are_set_and_got() {
    let mut values = ConfigValues::new();
    assert_eq!(values.get("llm.provider"), None);
    values.set("llm.provider", "ollama");
    values.set("llm.model", "m");
    assert_eq!(values.get("llm.provider"), Some("ollama"));
    assert_eq!(
        shown_line(&config::get_line("llm.provider", values.get("llm.provider"))),
        "llm.provider: ollama"
    );
    values.set("llm.provider", "jina");
    assert_eq!(values.get("llm.provider"), Some("jina"));
    assert_eq!(values.get("llm.model"), Some("m"));
    assert_eq!(values.entries().len(), 2);
    assert_eq!(values.get_or("llm.model", Some("x")), Some("m"));
    assert_eq!(values.get_or("llm.enabled", Some("true")), Some("true"));
    assert_eq!(values.get_or("other", None), None);
}

#[test]
fn a_reset_asks_first() {
    let question = config::reset_question(false).unwrap();
    assert_eq!(shown_line(&question), "Reset configuration to defaults? (y/n)");
    assert!(config::reset_question(true).is_none());
    let mut values = ConfigValues::new();
    values.set("k", "v");
    for answer in ["n\n", "", "yy", "no", "x"] {
        assert_eq!(shown_line(&values.reset(false, answer)), "Configuration not changed");
        assert_eq!(values.get("k"), Some("v"));
    }
    for (yes, answer) in [(false, "y\n"), (false, " Y "), (true, ""), (true, "n")] {
        values.set("k", "v");
        assert_eq!(shown_line(&values.reset(yes, answer)), "✓ Configuration reset to defaults");
        assert_eq!(values.get("k"), None);
        assert!(values.entries().is_empty());
    }
}

#[test]
fn the_agent_is_shown() {
    let mut c = AgentConfig {
        provider: "lmstudio",
        model: None,
        enabled: true,
        context_window: 32000,
        max_output_tokens: None,
        tier: ContextTier::Small,
    };
    let lines = shown(&agent_report(&c));
    assert_eq!(lines[6], "   Model: auto-detected");
    assert_eq!(lines[7], "   Status: Enabled");
    assert_eq!(lines[10], "   Tier: Small (32000 tokens)");
    assert_eq!(lines[12], "   Base Search Limit: 10 results");
    assert_eq!(lines[15], "   Max Steps per Workflow: 5");
    assert_eq!(lines[16], "   Cache: Enabled (size: 100 entries)");
    assert_eq!(lines[17], "   Max Output Tokens: 2048 (tier default)");
    assert_eq!(lines[20], "   • enhanced_search [TERSE]");
    assert_eq!(lines[21], "     Search code with AI insights (2-5s)");
    assert_eq!(lines[33], "     Deep architectural analysis (30-120s)");
    assert_eq!(lines[36], "   • code_search → TERSE");
    assert_eq!(lines[42], "   • semantic_question → TERSE");
    assert_eq!(lines.last().unwrap(), "   Current tier: Small");
    assert_eq!(lines.len(), 51);
    c.max_output_tokens = Some(77);
    c.enabled = false;
    c.model = Some("m");
    c.tier = ContextTier::Massive;
    let lines = shown(&agent_report(&c));
    assert_eq!(lines[6], "   Model: m");
    assert_eq!(lines[7], "   Status: Context-only mode");
    assert_eq!(lines[17], "   Max Output Tokens: 77 (custom)");
}

#[test]
fn limits_grow_with_the_context() {
    let tiers = [
        (ContextTier::Small, "TERSE", 5, 10, 2048),
        (ContextTier::Medium, "BALANCED", 10, 25, 4096),
        (ContextTier::Large, "DETAILED", 15, 50, 8192),
        (ContextTier::Massive, "EXPLORATORY", 20, 100, 16384),
    ];
    for (tier, prompts, steps, results, tokens) in tiers {
        assert_eq!(tier.prompt_verbosity(), prompts);
        let l = tier.limits(None);
        assert_eq!((l.max_steps, l.base_limit, l.max_output_tokens), (steps, results, tokens));
        assert_eq!(l.tokens_source(), "tier_default");
        assert_eq!(tier.limits(Some(1)).max_output_tokens, 1);
        assert_eq!(tier.limits(Some(1)).tokens_source(), "custom");
        assert_eq!(tier.name(), format!("{:?}", tier));
    }
    assert_eq!(mcp_tools().len(), 7);
    assert_eq!(analysis_types().len(), 7);
}

fn index_request() -> IndexRequest {
    IndexRequest {
        languages: Some(vec!["rust".to_string()]),
        exclude: vec!["target".to_string()],
        include_only: vec!["src".to_string()],
        recursive: true,
        force: true,
        watch: false,
        workers: 4,
        batch_size: 100,
        max_concurrent: 10,
        device: Some("cpu".to_string()),
        max_seq_len: 512,
        symbol_batch_size: Some(3),
        symbol_max_concurrent: None,
        index_tier: None,
    }
}

#[test]
fn settings_follow_the_memory() {
    let root = PathBuf::from("/p");
    let s = IndexSettings::for_index(
        index_request(),
        IndexingTier::Balanced,
        64,
        "ollama",
        root.clone(),
    );
    assert_eq!((s.batch_size, s.workers), (48, 12));
    assert_eq!(s.languages, ["rust"]);
    assert_eq!(s.exclude_patterns, ["target"]);
    assert_eq!(s.include_patterns, ["src"]);
    assert!(s.recursive && s.force_reindex && !s.watch);
    assert_eq!((s.max_concurrent, s.max_seq_len), (10, 512));
    assert_eq!((s.symbol_batch_size, s.symbol_max_concurrent), (Some(3), None));
    assert_eq!(s.device, Some("cpu".to_string()));
    assert_eq!(s.indexing_tier, IndexingTier::Balanced);
    assert_eq!(s.project_root, root);
    let mut r = index_request();
    r.languages = None;
    r.workers = 3;
    r.batch_size = 7;
    r.index_tier = Some(IndexTier::Full);
    let s = IndexSettings::for_index(r, IndexingTier::Fast, 64, "", root.clone());
    assert_eq!((s.batch_size, s.workers), (7, 3));
    assert!(s.languages.is_empty());
    assert_eq!(s.indexing_tier, IndexingTier::Full);
    let e = EstimateSettings::for_estimate(
        None,
        vec![],
        vec![],
        true,
        4,
        100,
        Some(IndexTier::Fast),
        IndexingTier::Full,
        root.clone(),
    );
    assert_eq!((e.workers, e.batch_size), (4, 100));
    assert_eq!(e.indexing_tier, IndexingTier::Fast);
    assert_eq!(e.project_root, root);
}

#[test]
fn tiers_are_resolved() {
    assert_eq!(IndexingTier::from(IndexTier::Balanced), IndexingTier::Balanced);
    assert_eq!(
        indexing::resolve_tier(Some(IndexTier::Full), IndexingTier::Fast),
        IndexingTier::Full
    );
    assert_eq!(indexing::resolve_tier(None, IndexingTier::Fast), IndexingTier::Fast);
    assert_eq!(
        shown(&indexing::index_notices(63, IndexingTier::Fast)),
        ["🧭 Indexing tier: fast (speed-first: AST + core edges) — override with --index-tier or CODEGRAPH_INDEX_TIER"]
    );
    let r = shown(&indexing::index_notices(64, IndexingTier::Full));
    assert_eq!(r[0], "🚀 High-memory system detected (64GB) - performance optimized!");
    assert_eq!(r.len(), 2);
    assert_eq!(
        indexing::tier_hint(IndexingTier::Balanced),
        "balanced (adds LSP symbols + enrichment)"
    );
}

fn stats<'a>() -> IndexStats<'a> {
    IndexStats {
        files: 12,
        skipped: 3,
        lines: 1234567,
        nodes: 40,
        edges: 50,
        resolved_edges: 45,
        unresolved_edges: 5,
        analyzers_enabled: true,
        build_context_nodes: 1,
        build_context_edges: 2,
        lsp_nodes_enriched: 3,
        lsp_edges_resolved: 4,
        docs_attached: 5,
        export_edges_added: 6,
        reexport_edges_added: 7,
        feature_enables_edges_added: 8,
        module_nodes_added: 9,
        module_import_edges_added: 10,
        dataflow_variable_nodes_added: 11,
        dataflow_flows_to_edges_added: 12,
        doc_nodes_added: 13,
        document_edges_added: 14,
        specification_edges_added: 15,
        package_cycles_detected: 16,
        boundary_violations_added: 17,
        embeddings: 100,
        embedding_dimension: 384,
        embedding_provider: "ollama",
        errors: 2,
        elapsed: "1.50s",
        throughput: "8.0 files/s, 27 nodes/s",
        resolution_rate: "90.0",
        average_nodes: "3.3",
        average_edges: "4.2",
    }
}

#[test]
fn an_index_summary() {
    let langs = vec!["rust".to_string(), "go".to_string()];
    let r = indexing::index_summary(&stats(), 6, 32, &langs);
    let lines = shown(&r);
    assert_eq!(lines[5], format!("│ ⏱️  Total time: {:<39} │", "1.50s"));
    assert_eq!(lines[6], format!("│ ⚡ Throughput: {:<39} │", "8.0 files/s, 27 nodes/s"));
    assert_eq!(lines[8], "│ 📄 Files:          12 indexed,    3 skipped           │");
    assert_eq!(lines[9], "│ 📝 Lines:      1234567 processed                        │");
    assert_eq!(lines[12], "│ 🎯 Resolution:   90.0% (45 resolved, 5 unresolved)      │");
    assert_eq!(lines[16], "│               +     7 reexports,   8 enables            │");
    assert_eq!(lines[19], "│ 📚 Docs:            13 docs,   29 links                │");
    assert_eq!(lines[21], "│ 💾 Embeddings:    100 chunks (384-dim)                  │");
    assert_eq!(lines[22], "│ ❌ Errors:          2 encountered                      │");
    assert_eq!(lines[24], "│ 📈 Averages: 3.3 nodes/file, 4.2 edges/file          │");
    assert_eq!(lines[28], "Workers: 6 | Batch Size: 32 | Languages: rust, go");
    assert_eq!(lines[29], "Embeddings: ollama (384-dim)");
    assert_eq!(lines.last().unwrap(), "  ⚠ Errors: 2");
    assert_eq!(lines.len(), 34);
}

#[test]
fn a_short_index_summary() {
    let mut s = stats();
    s.analyzers_enabled = false;
    s.errors = 0;
    s.embedding_provider = "";
    let lines = shown(&indexing::index_summary(&s, 6, 32, &vec![]));
    assert_eq!(lines.len(), 34 - 8 - 2 - 1);
    assert_eq!(lines[19], "Workers: 6 | Batch Size: 32 | Languages: ");
    assert_eq!(lines[20], "");
}

#[test]
fn other_notices_of_indexing() {
    assert_eq!(
        shown(&indexing::watch_notice()),
        ["", "Watching for changes... (Press Ctrl+C to stop)"]
    );
    assert_eq!(shown_line(&indexing::log_opened("l")), "📝 Debug log: l");
    assert_eq!(shown_line(&indexing::log_saved("l")), "📂 Detailed log saved at: l");
    assert_eq!(
        styles(&indexing::log_saved("l")),
        [Style::Cyan, Style::Plain, Style::Plain]
    );
}
