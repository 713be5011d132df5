//! How a server is started, served and shut down, together with the daemon that watches for changes.
use crate::agent::pairs_view;
use crate::launch::Transport;
use crate::report::{Line, Report, Style};
use crate::report::{blank_line, field_line, lemma_shows, lemma_shows_in, shows, shows_in};
use crate::report::{styled_line, text_line};
use crate::text::{decimal, decimal_text};
use std::path::PathBuf;
use vstd::prelude::*;

verus! {

/// Whether the daemon is to be started: not if it was forbidden; else if it was asked for; else by the
/// configuration.
pub open spec fn wants_daemon(disabled: bool, enabled: bool, configured: bool) -> bool {
    !disabled && (enabled || configured)
}

/// The directory that the daemon watches: the one that was asked for, or else the configured one, or
/// else the current one.
pub fn watch_root(
    asked: Option<PathBuf>,
    configured: Option<PathBuf>,
    current_dir: PathBuf,
) -> (r: PathBuf)
    ensures
        r == match (asked, configured) {
            (Some(path), _) => path,
            (None, Some(path)) => path,
            (None, None) => current_dir,
        },
{
    match asked {
        Some(path) => path,
        None => match configured {
            Some(path) => path,
            None => current_dir,
        },
    }
}

/// Whether a transport is secured.
#[derive(Debug, Clone, Copy, PartialEq, Eq, Structural)]
pub enum Security {
    Plain,
    Tls,
}

/// What is asked of a server that is to be started.
#[derive(Debug, Clone, Copy, PartialEq, Eq, Structural)]
pub struct StartRequest {
    pub transport: Transport,
    /// Whether the server is to run in a process of its own, which goes on after this one.
    pub background: bool,
    pub disable_daemon: bool,
    pub enable_daemon: bool,
    /// Whether the configuration asks for the daemon; nothing if there is no configuration to be had.
    pub auto_start: Option<bool>,
    pub tls: bool,
    pub has_cert: bool,
    pub has_key: bool,
}

/// Why a server does not run.
#[derive(Debug, PartialEq, Eq)]
pub enum StartError {
    /// TLS was asked for without a certificate or without a key.
    TlsIncomplete,
    /// The process for the background could not be started, for this reason.
    NotDetached(String),
    /// The transport could not be opened, for this reason.
    NotOpened(String),
    /// The server failed, for this reason.
    Failed(String),
}

/// How far a server has come.
#[derive(Debug, PartialEq, Eq)]
pub enum StartState {
    /// A process for the background is to be started.
    Detach,
    /// The daemon is to be started.
    StartDaemon,
    /// The transport is to be opened, secured or not.
    Open(Security),
    /// The server is to be served until its end.
    Serve,
    /// The daemon is to be stopped.
    StopDaemon,
    /// Everything is at its end.
    Done,
    /// The server does not run.
    Failed(StartError),
}

/// What was done about a server.
#[derive(Debug, PartialEq, Eq)]
pub enum StartEvent {
    Detached,
    NotDetached(String),
    DaemonStarted,
    DaemonNotStarted,
    Opened,
    NotOpened(String),
    Served,
    ServeFailed(String),
    /// The daemon was told to stop, whether or not it did.
    DaemonStopped,
}

/// A server, underway.
#[derive(Debug, PartialEq, Eq)]
pub struct Start {
    pub request: StartRequest,
    /// Whether the daemon was started.
    pub daemon: bool,
    pub state: StartState,
}

/// Whether TLS is asked for but cannot be had.
pub open spec fn tls_incomplete(request: StartRequest) -> bool {
    request.tls && !(request.has_cert && request.has_key)
}

/// Whether the transport is to be secured.
pub open spec fn security_of(request: StartRequest) -> Security {
    if request.tls {
        Security::Tls
    } else {
        Security::Plain
    }
}

/// The step after the daemon was dealt with.
pub open spec fn after_daemon(request: StartRequest) -> StartState {
    if tls_incomplete(request) {
        StartState::Failed(StartError::TlsIncomplete)
    } else {
        StartState::Open(security_of(request))
    }
}

/// The first step. A process for the background deals with the daemon itself.
pub open spec fn first_start_step(request: StartRequest) -> StartState {
    if request.background {
        if tls_incomplete(request) {
            StartState::Failed(StartError::TlsIncomplete)
        } else {
            StartState::Detach
        }
    } else {
        match request.auto_start {
            Some(auto) if wants_daemon(request.disable_daemon, request.enable_daemon, auto) =>
                StartState::StartDaemon,
            _ => after_daemon(request),
        }
    }
}

/// The server after `event`.
pub open spec fn started_next(s: Start, event: StartEvent) -> Start {
    match (s.state, event) {
        (StartState::Detach, StartEvent::Detached) => Start { state: StartState::Done, ..s },
        (StartState::Detach, StartEvent::NotDetached(reason)) => Start {
            state: StartState::Failed(StartError::NotDetached(reason)),
            ..s
        },
        (StartState::StartDaemon, StartEvent::DaemonStarted) => Start {
            request: s.request,
            daemon: true,
            state: after_daemon(s.request),
        },
        (StartState::StartDaemon, StartEvent::DaemonNotStarted) => Start {
            request: s.request,
            daemon: false,
            state: after_daemon(s.request),
        },
        (StartState::Open(_), StartEvent::Opened) => Start { state: StartState::Serve, ..s },
        (StartState::Open(_), StartEvent::NotOpened(reason)) => Start {
            state: StartState::Failed(StartError::NotOpened(reason)),
            ..s
        },
        (StartState::Serve, StartEvent::Served) => Start {
            state: if s.daemon {
                StartState::StopDaemon
            } else {
                StartState::Done
            },
            ..s
        },
        (StartState::Serve, StartEvent::ServeFailed(reason)) => Start {
            state: StartState::Failed(StartError::Failed(reason)),
            ..s
        },
        (StartState::StopDaemon, StartEvent::DaemonStopped) => Start {
            state: StartState::Done,
            ..s
        },
        _ => s,
    }
}

impl StartRequest {
    fn next_after_daemon(&self) -> (r: StartState)
        ensures
            r == after_daemon(*self),
    {
        if !self.tls {
            StartState::Open(Security::Plain)
        } else if self.has_cert && self.has_key {
            StartState::Open(Security::Tls)
        } else {
            StartState::Failed(StartError::TlsIncomplete)
        }
    }
}

/// Whether the daemon is to be started.
pub fn should_start_daemon(disabled: bool, enabled: bool, configured: bool) -> (r: bool)
    ensures
        r == wants_daemon(disabled, enabled, configured),
{
    if disabled {
        false
    } else if enabled {
        true
    } else {
        configured
    }
}

impl Start {
    /// Begins to start a server.
    pub fn begin(request: StartRequest) -> (r: Self)
        ensures
            r == (Start { request, daemon: false, state: first_start_step(request) }),
    {
        if request.background {
            let state = if request.tls && !(request.has_cert && request.has_key) {
                StartState::Failed(StartError::TlsIncomplete)
            } else {
                StartState::Detach
            };
            return Start { request, daemon: false, state };
        }
        let wanted: bool = match request.auto_start {
            Some(auto) => should_start_daemon(request.disable_daemon, request.enable_daemon, auto),
            None => false,
        };
        let state = if wanted {
            StartState::StartDaemon
        } else {
            request.next_after_daemon()
        };
        Start { request, daemon: false, state }
    }

    /// Takes note of what was done.
    pub fn advance(self, event: StartEvent) -> (r: Self)
        ensures
            r == started_next(self, event),
            r.request == self.request,
            self.state is Open && event is Opened ==> r.state is Serve,
            r.state is Done ==> self.state is Done || (self.state is Serve && event is Served && !self.daemon)
                || (self.state is StopDaemon && event is DaemonStopped) || (self.state is Detach
                && event is Detached),
    {
        let request = self.request;
        let daemon: bool = self.daemon;
        match (self.state, event) {
            (StartState::Detach, StartEvent::Detached) => Start {
                request,
                daemon,
                state: StartState::Done,
            },
            (StartState::Detach, StartEvent::NotDetached(reason)) => Start {
                request,
                daemon,
                state: StartState::Failed(StartError::NotDetached(reason)),
            },
            (StartState::StartDaemon, StartEvent::DaemonStarted) => Start {
                request,
                daemon: true,
                state: request.next_after_daemon(),
            },
            (StartState::StartDaemon, StartEvent::DaemonNotStarted) => Start {
                request,
                daemon: false,
                state: request.next_after_daemon(),
            },
            (StartState::Open(_), StartEvent::Opened) => Start {
                request,
                daemon,
                state: StartState::Serve,
            },
            (StartState::Open(_), StartEvent::NotOpened(reason)) => Start {
                request,
                daemon,
                state: StartState::Failed(StartError::NotOpened(reason)),
            },
            (StartState::Serve, StartEvent::Served) => Start {
                request,
                daemon,
                state: if daemon {
                    StartState::StopDaemon
                } else {
                    StartState::Done
                },
            },
            (StartState::Serve, StartEvent::ServeFailed(reason)) => Start {
                request,
                daemon,
                state: StartState::Failed(StartError::Failed(reason)),
            },
            (StartState::StopDaemon, StartEvent::DaemonStopped) => Start {
                request,
                daemon,
                state: StartState::Done,
            },
            (state, _) => Start { request, daemon, state },
        }
    }
}

/// The message of an error.
pub open spec fn start_message(
    e: StartError,
    transport: Transport,
    address: Seq<char>,
) -> Seq<char> {
    match (e, transport) {
        (StartError::TlsIncomplete, _) =>
            "TLS enabled but certificate or key not provided. Use --cert and --key"@,
        (StartError::NotDetached(reason), _) => reason@,
        (StartError::NotOpened(reason), Transport::Stdio) => "MCP server startup failed: "@
            + reason@,
        (StartError::NotOpened(reason), Transport::Http) => "Failed to bind to "@ + address + ": "@
            + reason@,
        (StartError::Failed(reason), Transport::Stdio) => "Server error: "@ + reason@,
        (StartError::Failed(reason), Transport::Http) => "HTTP server error: "@ + reason@,
    }
}

impl StartError {
    /// The message of the error, for a server with the given transport and address.
    pub fn message(&self, transport: Transport, address: &str) -> (r: String)
        ensures
            r@ == start_message(*self, transport, address@),
    {
        match (self, transport) {
            (StartError::TlsIncomplete, _) => String::from_str(
                "TLS enabled but certificate or key not provided. Use --cert and --key",
            ),
            (StartError::NotDetached(reason), _) => String::from_str(reason.as_str()),
            (StartError::NotOpened(reason), Transport::Stdio) => String::from_str(
                "MCP server startup failed: ",
            ).concat(reason.as_str()),
            (StartError::NotOpened(reason), Transport::Http) => String::from_str(
                "Failed to bind to ",
            ).concat(address).concat(": ").concat(reason.as_str()),
            (StartError::Failed(reason), Transport::Stdio) => String::from_str(
                "Server error: ",
            ).concat(reason.as_str()),
            (StartError::Failed(reason), Transport::Http) => String::from_str(
                "HTTP server error: ",
            ).concat(reason.as_str()),
        }
    }
}

/// The address that a server binds to.
pub fn http_address(host: &str, port: u16) -> (r: String)
    ensures
        r@ == host@ + ":"@ + decimal(port as nat),
{
    String::from_str(host).concat(":").concat(decimal_text(port as u64).as_str())
}

/// What is shown of a daemon that watches a directory.
pub fn daemon_watching(root: &str) -> (r: Line)
    ensures
        r@ == seq![(Style::Cyan, "🔄 Daemon watching: "@), (Style::Cyan, root@)],
{
    let r = Line::new().with(Style::Cyan, "🔄 Daemon watching: ").with(Style::Cyan, root);
    assert(r@ =~= seq![(Style::Cyan, "🔄 Daemon watching: "@), (Style::Cyan, root@)]);
    r
}

/// What is shown of a daemon that could not be started.
pub fn daemon_not_started(transport: Transport, reason: &str) -> (r: Line)
    ensures
        r@ == seq![
            (Style::Yellow, "⚠️  Daemon failed to start: "@),
            (Style::Yellow, reason@),
            (
                Style::Yellow,
                match transport {
                    Transport::Stdio => " (MCP server continuing)"@,
                    Transport::Http => " (HTTP server continuing)"@,
                },
            ),
        ],
{
    let end = match transport {
        Transport::Stdio => " (MCP server continuing)",
        Transport::Http => " (HTTP server continuing)",
    };
    Line::new().with(Style::Yellow, "⚠️  Daemon failed to start: ").with(
        Style::Yellow,
        reason,
    ).with(Style::Yellow, end)
}

/// A point in the start of a server at which something is shown.
#[derive(Debug, Clone, Copy, PartialEq, Eq, Structural)]
pub enum Moment {
    /// The daemon has been dealt with.
    Starting,
    /// The server has been set up.
    SetUp,
    /// The transport is open.
    Opened,
}

/// What is shown at a point in the start of a server.
pub open spec fn moment_lines(
    transport: Transport,
    moment: Moment,
    security: Security,
    address: Seq<char>,
) -> Seq<Seq<(Style, Seq<char>)>> {
    match (transport, moment) {
        (Transport::Stdio, Moment::Starting) => seq![
            styled_line(
                Style::GreenBold,
                "Starting CodeGraph MCP Server with 100% Official SDK..."@,
            ),
        ],
        (Transport::Stdio, Moment::SetUp) => seq![
            text_line(
                "✅ Revolutionary CodeGraph MCP server ready with 100% protocol compliance"@,
            ),
        ],
        (Transport::Stdio, Moment::Opened) => seq![
            text_line("🚀 Official MCP server started with revolutionary capabilities"@),
        ],
        (Transport::Http, Moment::Starting) => seq![
            styled_line(
                Style::GreenBold,
                "Starting CodeGraph MCP Server with HTTP transport..."@,
            ),
        ],
        (Transport::Http, Moment::SetUp) => seq![
            text_line("📡 Configuring StreamableHTTP with SSE keep-alive (15s)"@),
        ],
        (Transport::Http, Moment::Opened) => seq![
            text_line("✅ CodeGraph MCP HTTP server ready"@),
            field_line(
                match security {
                    Security::Plain => "🚀 Listening on http://"@,
                    Security::Tls => "🚀 Listening on https://"@,
                },
                Style::Plain,
                address,
            ),
            blank_line(),
            text_line("📋 HTTP Endpoints:"@),
            text_line("   POST   /mcp  - Initialize session"@),
            text_line("   GET    /mcp  - Open SSE stream (with Mcp-Session-Id header)"@),
            text_line("   POST   /mcp  - Send request (with Mcp-Session-Id header)"@),
            text_line("   DELETE /mcp  - Close session"@),
            blank_line(),
            text_line("💡 Progress notifications stream via Server-Sent Events"@),
        ],
    }
}

/// What is shown at a point in the start of a server.
pub fn moment_report(
    transport: Transport,
    moment: Moment,
    security: Security,
    address: &str,
) -> (r: Report)
    ensures
        r@ == moment_lines(transport, moment, security, address@),
{
    let mut r = Report::new();
    match (transport, moment) {
        (Transport::Stdio, Moment::Starting) => {
            r.styled(
                Style::GreenBold,
                "Starting CodeGraph MCP Server with 100% Official SDK...",
            );
        },
        (Transport::Stdio, Moment::SetUp) => {
            r.text("✅ Revolutionary CodeGraph MCP server ready with 100% protocol compliance");
        },
        (Transport::Stdio, Moment::Opened) => {
            r.text("🚀 Official MCP server started with revolutionary capabilities");
        },
        (Transport::Http, Moment::Starting) => {
            r.styled(Style::GreenBold, "Starting CodeGraph MCP Server with HTTP transport...");
        },
        (Transport::Http, Moment::SetUp) => {
            r.text("📡 Configuring StreamableHTTP with SSE keep-alive (15s)");
        },
        (Transport::Http, Moment::Opened) => {
            r.text("✅ CodeGraph MCP HTTP server ready");
            let label = match security {
                Security::Plain => "🚀 Listening on http://",
                Security::Tls => "🚀 Listening on https://",
            };
            r.field(label, Style::Plain, address);
            r.blank();
            r.text("📋 HTTP Endpoints:");
            r.text("   POST   /mcp  - Initialize session");
            r.text("   GET    /mcp  - Open SSE stream (with Mcp-Session-Id header)");
            r.text("   POST   /mcp  - Send request (with Mcp-Session-Id header)");
            r.text("   DELETE /mcp  - Close session");
            r.blank();
            r.text("💡 Progress notifications stream via Server-Sent Events");
        },
    }
    assert(r@ =~~= moment_lines(transport, moment, security, address@));
    r
}

/// The headers that let pages from anywhere use a server, if that is asked for.
pub open spec fn cors_texts(cors: bool) -> Seq<(Seq<char>, Seq<char>)> {
    if cors {
        seq![
            ("access-control-allow-origin"@, "*"@),
            ("access-control-allow-methods"@, "GET, POST, DELETE, OPTIONS"@),
            ("access-control-allow-headers"@, "*"@),
            ("access-control-expose-headers"@, "Mcp-Session-Id"@),
        ]
    } else {
        seq![]
    }
}

/// The headers that let pages from anywhere use a server, if that is asked for.
pub fn cors_headers(cors: bool) -> (r: Vec<(&'static str, &'static str)>)
    ensures
        pairs_view(r@) == cors_texts(cors),
{
    let mut r: Vec<(&'static str, &'static str)> = Vec::new();
    if cors {
        r.push(("access-control-allow-origin", "*"));
        r.push(("access-control-allow-methods", "GET, POST, DELETE, OPTIONS"));
        r.push(("access-control-allow-headers", "*"));
        r.push(("access-control-expose-headers", "Mcp-Session-Id"));
    }
    assert(pairs_view(r@) =~= cors_texts(cors));
    r
}

/// What is shown when the standard streams could not be used.
pub fn not_opened(reason: &str) -> (r: Line)
    ensures
        r@ == field_line("❌ Failed to start official MCP server: "@, Style::Plain, reason@),
{
    Line::new().plain("❌ Failed to start official MCP server: ").plain(reason)
}

/// What is shown of two servers that were started.
pub open spec fn dual_lines(
    host: Seq<char>,
    port: nat,
    buffer_size: nat,
    stdio_pid: nat,
    http_pid: nat,
) -> Seq<Seq<(Style, Seq<char>)>> {
    seq![
        text_line("✓ MCP server started with dual transport"@),
        seq![
            (Style::Plain, "  STDIO: buffer size "@),
            (Style::Plain, decimal(buffer_size)),
            (Style::Plain, " (PID: "@),
            (Style::Plain, decimal(stdio_pid)),
            (Style::Plain, ")"@),
        ],
        seq![
            (Style::Plain, "  HTTP: http://"@),
            (Style::Plain, host),
            (Style::Plain, ":"@),
            (Style::Plain, decimal(port)),
            (Style::Plain, " (PID: "@),
            (Style::Plain, decimal(http_pid)),
            (Style::Plain, ")"@),
        ],
    ]
}

/// What is shown of two servers that were started.
pub fn dual_started(
    host: &str,
    port: u16,
    buffer_size: usize,
    stdio_pid: u32,
    http_pid: u32,
) -> (r: Report)
    ensures
        r@ == dual_lines(
            host@,
            port as nat,
            buffer_size as nat,
            stdio_pid as nat,
            http_pid as nat,
        ),
{
    let mut r = Report::new();
    r.text("✓ MCP server started with dual transport");
    r.push(
        Line::new().plain("  STDIO: buffer size ").plain(
            decimal_text(buffer_size as u64).as_str(),
        ).plain(" (PID: ").plain(decimal_text(stdio_pid as u64).as_str()).plain(")"),
    );
    r.push(
        Line::new().plain("  HTTP: http://").plain(host).plain(":").plain(
            decimal_text(port as u64).as_str(),
        ).plain(" (PID: ").plain(decimal_text(http_pid as u64).as_str()).plain(")"),
    );
    assert(r@ =~~= dual_lines(
        host@,
        port as nat,
        buffer_size as nat,
        stdio_pid as nat,
        http_pid as nat,
    ));
    r
}

/// What is shown at the end of a start in the background, with the PID file if there is one.
pub open spec fn background_lines(
    background: bool,
    pid_file: Option<Seq<char>>,
) -> Seq<Seq<(Style, Seq<char>)>> {
    if background {
        match pid_file {
            Some(path) => seq![
                text_line("Running in daemon mode"@),
                field_line("PID file: "@, Style::Plain, path),
            ],
            None => seq![text_line("Running in daemon mode"@)],
        }
    } else {
        seq![]
    }
}

/// What is shown at the end of a start in the background, with the PID file if there is one.
pub fn background_notice(background: bool, pid_file: Option<&str>) -> (r: Report)
    ensures
        r@ == background_lines(
            background,
            match pid_file {
                Some(path) => Some(path@),
                None => None,
            },
        ),
{
    let mut r = Report::new();
    if background {
        r.text("Running in daemon mode");
        match pid_file {
            Some(path) => {
                r.field("PID file: ", Style::Plain, path);
            },
            None => {},
        }
    }
    assert(r@ =~~= background_lines(
        background,
        match pid_file {
            Some(path) => Some(path@),
            None => None,
        },
    ));
    r
}

/// Forbidding the daemon beats asking for it, and asking for it beats the configuration.
pub proof fn law_daemon_priority(enabled: bool, configured: bool)
    ensures
        !wants_daemon(true, enabled, configured),
        wants_daemon(false, true, configured),
        wants_daemon(false, false, configured) == configured,
{
}

/// A daemon that does not start keeps no server from starting: the next step is the same as with it.
pub proof fn law_server_goes_on_without_daemon(s: Start)
    requires
        s.state is StartDaemon,
    ensures
        started_next(s, StartEvent::DaemonNotStarted).state == started_next(
            s,
            StartEvent::DaemonStarted,
        ).state,
        !started_next(s, StartEvent::DaemonNotStarted).daemon,
{
}

/// The server after `events`.
pub open spec fn after_start_events(s: Start, events: Seq<StartEvent>) -> Start
    decreases events.len(),
{
    if events.len() == 0 {
        s
    } else {
        started_next(after_start_events(s, events.drop_last()), events.last())
    }
}

/// What holds of a server that was begun for `request`.
pub open spec fn start_invariant(request: StartRequest, s: Start) -> bool {
    &&& s.request == request
    &&& s.state is StartDaemon ==> !s.daemon
    &&& s.state is StopDaemon ==> s.daemon
    &&& s.state is StartDaemon || s.daemon ==> wants_daemon(
        request.disable_daemon,
        request.enable_daemon,
        request.auto_start == Some(true),
    ) && request.auto_start is Some
    &&& tls_incomplete(request) ==> s.state is StartDaemon || s.state
        == StartState::Failed(StartError::TlsIncomplete)
    &&& s.state == StartState::Failed(StartError::TlsIncomplete) ==> tls_incomplete(request)
    &&& s.state is Open ==> s.state == StartState::Open(security_of(request))
    &&& request.background ==> !s.daemon && (s.state is Detach || s.state is Done || s.state
        is Failed)
    &&& s.state is Detach ==> request.background
}

/// Whatever happens to a server that is started: a daemon runs only if one is wanted, only one that was
/// started is stopped, with incomplete TLS no transport is ever opened, while with anything else the
/// server never fails for TLS, and a server for the background is never served by this process.
pub proof fn law_start_keeps_its_promises(request: StartRequest, events: Seq<StartEvent>)
    ensures
        start_invariant(
            request,
            after_start_events(
                Start { request, daemon: false, state: first_start_step(request) },
                events,
            ),
        ),
    decreases events.len(),
{
    if events.len() > 0 {
        law_start_keeps_its_promises(request, events.drop_last());
    }
}

/// A request for TLS never comes to a transport that is not secured, whatever happens; nor does one
/// without TLS come to one that is.
pub proof fn law_tls_is_never_plain(request: StartRequest, events: Seq<StartEvent>)
    ensures
        ({
            let s = after_start_events(
                Start { request, daemon: false, state: first_start_step(request) },
                events,
            );
            &&& request.tls ==> s.state != StartState::Open(Security::Plain)
            &&& !request.tls ==> s.state != StartState::Open(Security::Tls)
        }),
{
    law_start_keeps_its_promises(request, events);
}

/// A server with a daemon is at its end only after the daemon was told to stop.
pub proof fn law_daemon_is_stopped(s: Start, event: StartEvent)
    requires
        start_invariant(s.request, s),
        s.daemon,
        !(s.state is Done),
        started_next(s, event).state is Done,
    ensures
        s.state is StopDaemon,
        event is DaemonStopped,
{
}

/// A server that was begun for `request` and to which nothing has happened yet.
pub open spec fn begun(request: StartRequest) -> Start {
    Start { request, daemon: false, state: first_start_step(request) }
}

/// Once the transport is open the server is served, whatever the transport and with or without a
/// daemon; if it cannot be opened, the server fails for the reason that was given.
pub proof fn law_opened_server_is_served(s: Start, reason: String)
    requires
        s.state is Open,
    ensures
        started_next(s, StartEvent::Opened).state is Serve,
        started_next(s, StartEvent::NotOpened(reason)).state == StartState::Failed(
            StartError::NotOpened(reason),
        ),
{
}

/// A server that has been served has its daemon stopped if there is one, and is at its end otherwise; if
/// serving fails, it fails for the reason that was given.
pub proof fn law_served_server_ends(s: Start, reason: String)
    requires
        s.state is Serve,
    ensures
        started_next(s, StartEvent::Served).state is StopDaemon <==> s.daemon,
        started_next(s, StartEvent::Served).state is Done <==> !s.daemon,
        started_next(s, StartEvent::ServeFailed(reason)).state == StartState::Failed(
            StartError::Failed(reason),
        ),
{
}

/// What happens to a server never changes what was asked of it, and whether it has a daemon is decided
/// only where the daemon is to be started: by whether it was.
pub proof fn law_request_and_daemon_are_kept(s: Start, event: StartEvent)
    ensures
        started_next(s, event).request == s.request,
        !(s.state is StartDaemon) ==> started_next(s, event).daemon == s.daemon,
        s.state is StartDaemon && event is DaemonStarted ==> started_next(s, event).daemon,
        s.state is StartDaemon && event is DaemonNotStarted ==> !started_next(s, event).daemon,
{
}

/// Only what was to be done moves a server on. Anything else that happens leaves it as it is, and nothing
/// moves one that is at its end or has failed.
pub proof fn law_only_answers_move_a_server(s: Start, event: StartEvent)
    ensures
        started_next(s, event) != s ==> {
            ||| s.state is Detach && (event is Detached || event is NotDetached)
            ||| s.state is StartDaemon && (event is DaemonStarted || event is DaemonNotStarted)
            ||| s.state is Open && (event is Opened || event is NotOpened)
            ||| s.state is Serve && (event is Served || event is ServeFailed)
            ||| s.state is StopDaemon && event is DaemonStopped
        },
        s.state is Done || s.state is Failed ==> started_next(s, event) == s,
{
}

/// Whether `event` says that something did not work.
pub open spec fn is_setback(event: StartEvent) -> bool {
    event is NotDetached || event is NotOpened || event is ServeFailed
}

/// What was to be done and was done brings a server to the step after it: what was to be detached is at
/// its end, a daemon is followed by the transport, the transport by serving, serving by the end of the
/// daemon or of everything. A server fails only where something did not work, or where TLS is incomplete.
pub proof fn law_steps_of_a_server(s: Start, event: StartEvent)
    requires
        !(s.state is Failed),
    ensures
        s.state is Detach && event is Detached ==> started_next(s, event).state is Done,
        s.state is Detach && event is NotDetached ==> started_next(s, event).state
            == StartState::Failed(StartError::NotDetached(event->NotDetached_0)),
        s.state is StopDaemon && event is DaemonStopped ==> started_next(s, event).state is Done,
        s.state is StartDaemon && (event is DaemonStarted || event is DaemonNotStarted) ==> {
            let next = started_next(s, event).state;
            if s.request.tls && !(s.request.has_cert && s.request.has_key) {
                next == StartState::Failed(StartError::TlsIncomplete)
            } else if s.request.tls {
                next == StartState::Open(Security::Tls)
            } else {
                next == StartState::Open(Security::Plain)
            }
        },
        started_next(s, event).state is Failed ==> is_setback(event) || s.state is StartDaemon,
{
}

/// Whether the server `s` was, in the run of `events`, in the step `Serve` when `Served` came.
pub open spec fn was_served(s: Start, events: Seq<StartEvent>) -> bool {
    exists|i: int|
        0 <= i < events.len() && #[trigger] events[i] is Served && after_start_events(
            s,
            events.take(i),
        ).state is Serve
}

proof fn lemma_was_served_before(s: Start, events: Seq<StartEvent>)
    requires
        events.len() > 0,
        was_served(s, events.drop_last()),
    ensures
        was_served(s, events),
{
    let earlier = events.drop_last();
    let i = choose|i: int|
        0 <= i < earlier.len() && #[trigger] earlier[i] is Served && after_start_events(
            s,
            earlier.take(i),
        ).state is Serve;
    assert(earlier.take(i) =~= events.take(i));
    assert(events[i] == earlier[i]);
}

/// Over any run of events, a server of this process comes to its end, or to the end of its daemon, only
/// after it was told to have been served while it was to be served.
pub proof fn law_end_only_after_serving(request: StartRequest, events: Seq<StartEvent>)
    requires
        !request.background,
    ensures
        after_start_events(begun(request), events).state is Done ==> was_served(begun(request), events),
        after_start_events(begun(request), events).state is StopDaemon ==> was_served(
            begun(request),
            events,
        ),
    decreases events.len(),
{
    if events.len() > 0 {
        let earlier = events.drop_last();
        law_end_only_after_serving(request, earlier);
        law_start_keeps_its_promises(request, earlier);
        let before = after_start_events(begun(request), earlier);
        let after = after_start_events(begun(request), events);
        if before.state is Done || before.state is StopDaemon {
            lemma_was_served_before(begun(request), events);
        } else if after.state is Done || after.state is StopDaemon {
            let i = events.len() - 1;
            assert(events.take(i) =~= earlier);
            assert(events[i] is Served);
        }
    }
}

/// Over any run of events, a server for the background is at its end only after its process was started,
/// and is never served here.
pub proof fn law_background_ends_when_detached(request: StartRequest, events: Seq<StartEvent>)
    requires
        request.background,
    ensures
        after_start_events(begun(request), events).state is Done ==> exists|i: int|
            0 <= i < events.len() && #[trigger] events[i] is Detached,
        !(after_start_events(begun(request), events).state is Serve),
        !(after_start_events(begun(request), events).state is Open),
        !after_start_events(begun(request), events).daemon,
    decreases events.len(),
{
    if events.len() > 0 {
        let earlier = events.drop_last();
        law_background_ends_when_detached(request, earlier);
        law_start_keeps_its_promises(request, events);
        law_start_keeps_its_promises(request, earlier);
        let before = after_start_events(begun(request), earlier);
        if after_start_events(begun(request), events).state is Done {
            if before.state is Done {
                let i = choose|i: int| 0 <= i < earlier.len() && #[trigger] earlier[i] is Detached;
                assert(events[i] is Detached);
            } else {
                assert(events[events.len() - 1] is Detached);
            }
        }
    }
}

/// Where everything works, a server of this process is at its end after its transport was opened and it
/// was served, and where a daemon is wanted, after that was started first and stopped last. It is wanted
/// if the configuration can be had, it is not forbidden, and it is asked for or configured.
pub proof fn law_course_without_setbacks(request: StartRequest)
    requires
        !request.background,
        request.tls ==> request.has_cert && request.has_key,
    ensures
        ({
            let wanted = !request.disable_daemon && request.auto_start is Some && (
            request.enable_daemon || request.auto_start == Some(true));
            let first = begun(request);
            let opened = if wanted {
                started_next(first, StartEvent::DaemonStarted)
            } else {
                first
            };
            let served = started_next(opened, StartEvent::Opened);
            let ended = started_next(served, StartEvent::Served);
            &&& first.state is StartDaemon <==> wanted
            &&& opened.daemon == wanted
            &&& opened.state == StartState::Open(
                if request.tls {
                    Security::Tls
                } else {
                    Security::Plain
                },
            )
            &&& served.state is Serve
            &&& !wanted ==> ended.state is Done
            &&& wanted ==> ended.state is StopDaemon && started_next(
                ended,
                StartEvent::DaemonStopped,
            ).state is Done
        }),
{
}

/// Whatever happens, TLS without a certificate or without a key comes to nothing but that error, and no
/// other request comes to it.
pub proof fn law_tls_needs_certificate_and_key(request: StartRequest, events: Seq<StartEvent>)
    ensures
        ({
            let s = after_start_events(begun(request), events);
            &&& request.tls && (!request.has_cert || !request.has_key) ==> s.state is StartDaemon
                || s.state == StartState::Failed(StartError::TlsIncomplete)
            &&& !(request.tls && (!request.has_cert || !request.has_key)) ==> s.state
                != StartState::Failed(StartError::TlsIncomplete)
            &&& request.background && request.tls && (!request.has_cert || !request.has_key)
                ==> s.state == StartState::Failed(StartError::TlsIncomplete)
            &&& request.background && events.len() == 0 && !(request.tls && (!request.has_cert
                || !request.has_key)) ==> s.state is Detach
        }),
{
    law_start_keeps_its_promises(request, events);
}

/// A daemon runs, over any run of events, only if the configuration can be had, it is not forbidden, and
/// it is asked for or configured.
pub proof fn law_daemon_only_if_wanted(request: StartRequest, events: Seq<StartEvent>)
    ensures
        after_start_events(begun(request), events).daemon ==> {
            &&& !request.background
            &&& !request.disable_daemon
            &&& request.auto_start is Some
            &&& request.enable_daemon || request.auto_start == Some(true)
        },
{
    law_start_keeps_its_promises(request, events);
}

/// A message ends with the reason that was given, and one about an address that could not be bound to
/// names the address.
pub proof fn law_message_gives_the_reason(transport: Transport, address: Seq<char>, reason: String)
    ensures
        start_message(StartError::NotDetached(reason), transport, address) == reason@,
        ({
            let m = start_message(StartError::NotOpened(reason), transport, address);
            &&& m.len() >= reason@.len()
            &&& m.skip(m.len() - reason@.len()) == reason@
        }),
        ({
            let m = start_message(StartError::Failed(reason), transport, address);
            &&& m.len() >= reason@.len()
            &&& m.skip(m.len() - reason@.len()) == reason@
        }),
        ({
            let m = start_message(StartError::NotOpened(reason), Transport::Http, address);
            &&& m.len() == 20 + address.len() + reason@.len()
            &&& m.subrange(18, 18 + address.len() as int) == address
        }),
        start_message(StartError::NotOpened(reason), Transport::Stdio, address).len() == 27
            + reason@.len(),
        start_message(StartError::Failed(reason), Transport::Stdio, address).len() == 14
            + reason@.len(),
        start_message(StartError::Failed(reason), Transport::Http, address).len() == 19
            + reason@.len(),
{
    reveal_strlit("MCP server startup failed: ");
    reveal_strlit("Failed to bind to ");
    reveal_strlit(": ");
    reveal_strlit("Server error: ");
    reveal_strlit("HTTP server error: ");
    let a = start_message(StartError::NotOpened(reason), transport, address);
    assert(a.skip(a.len() - reason@.len()) =~= reason@);
    let b = start_message(StartError::Failed(reason), transport, address);
    assert(b.skip(b.len() - reason@.len()) =~= reason@);
    let c = start_message(StartError::NotOpened(reason), Transport::Http, address);
    assert(c.subrange(18, 18 + address.len() as int) =~= address);
}

/// An open HTTP server shows its address, as one that is secured exactly if it is; what a server over the
/// standard streams shows does not depend on an address.
pub proof fn law_open_server_shows_its_address(
    moment: Moment,
    security: Security,
    address: Seq<char>,
    other: Seq<char>,
)
    ensures
        shows(
            moment_lines(Transport::Http, Moment::Opened, Security::Tls, address),
            "🚀 Listening on https://"@ + address,
        ),
        shows(
            moment_lines(Transport::Http, Moment::Opened, Security::Plain, address),
            "🚀 Listening on http://"@ + address,
        ),
        moment_lines(Transport::Stdio, moment, security, address) == moment_lines(
            Transport::Stdio,
            moment,
            security,
            other,
        ),
        moment_lines(Transport::Http, Moment::Starting, security, address) == moment_lines(
            Transport::Http,
            Moment::Starting,
            security,
            other,
        ),
{
    lemma_shows(
        moment_lines(Transport::Http, Moment::Opened, Security::Tls, address),
        1,
        "🚀 Listening on https://"@ + address,
    );
    lemma_shows(
        moment_lines(Transport::Http, Moment::Opened, Security::Plain, address),
        1,
        "🚀 Listening on http://"@ + address,
    );
}

/// Without being asked to let pages from anywhere use it, a server sends no header about that; else it lets
/// any page in, and lets it see its session.
pub proof fn law_cross_origin_headers(cors: bool)
    ensures
        !cors ==> cors_texts(cors).len() == 0,
        cors ==> cors_texts(cors).contains(("access-control-allow-origin"@, "*"@)),
        cors ==> cors_texts(cors).contains(
            ("access-control-allow-methods"@, "GET, POST, DELETE, OPTIONS"@),
        ),
        cors ==> cors_texts(cors).contains(("access-control-allow-headers"@, "*"@)),
        cors ==> cors_texts(cors).contains(("access-control-expose-headers"@, "Mcp-Session-Id"@)),
        cors ==> cors_texts(cors).len() == 4,
{
    if cors {
        let h = cors_texts(cors);
        assert(h.contains(h[0]) && h.contains(h[1]) && h.contains(h[2]) && h.contains(h[3]));
    }
}

/// Of two servers, each is shown with its own process number, and with its buffer or its address.
pub proof fn law_both_servers_are_shown(
    host: Seq<char>,
    port: nat,
    buffer_size: nat,
    stdio_pid: nat,
    http_pid: nat,
)
    ensures
        ({
            let lines = dual_lines(host, port, buffer_size, stdio_pid, http_pid);
            &&& lines.len() == 3
            &&& shows(
                lines,
                "  STDIO: buffer size "@ + decimal(buffer_size) + " (PID: "@ + decimal(stdio_pid)
                    + ")"@,
            )
            &&& shows(
                lines,
                "  HTTP: http://"@ + host + ":"@ + decimal(port) + " (PID: "@ + decimal(http_pid)
                    + ")"@,
            )
        }),
{
    let lines = dual_lines(host, port, buffer_size, stdio_pid, http_pid);
    lemma_shows(
        lines,
        1,
        "  STDIO: buffer size "@ + decimal(buffer_size) + " (PID: "@ + decimal(stdio_pid) + ")"@,
    );
    lemma_shows(
        lines,
        2,
        "  HTTP: http://"@ + host + ":"@ + decimal(port) + " (PID: "@ + decimal(http_pid) + ")"@,
    );
}

/// A start in the background is told, with the PID file if there is one; any other start is not.
pub proof fn law_background_is_told(pid_file: Option<Seq<char>>, path: Seq<char>)
    ensures
        background_lines(false, pid_file).len() == 0,
        shows(background_lines(true, pid_file), "Running in daemon mode"@),
        shows(background_lines(true, Some(path)), "PID file: "@ + path),
        background_lines(true, None).len() == 1,
{
    lemma_shows(background_lines(true, pid_file), 0, "Running in daemon mode"@);
    lemma_shows(background_lines(true, Some(path)), 1, "PID file: "@ + path);
}

/// That a server is being started is announced in bold green, by its transport.
pub proof fn law_starting_is_announced(security: Security, address: Seq<char>, moment: Moment)
    ensures
        shows_in(
            moment_lines(Transport::Stdio, Moment::Starting, security, address),
            Style::GreenBold,
            "Starting CodeGraph MCP Server with 100% Official SDK..."@,
        ),
        shows_in(
            moment_lines(Transport::Http, Moment::Starting, security, address),
            Style::GreenBold,
            "Starting CodeGraph MCP Server with HTTP transport..."@,
        ),
        moment_lines(Transport::Stdio, moment, security, address).len() == 1,
        moment != Moment::Opened ==> moment_lines(Transport::Http, moment, security, address).len() == 1,
        moment_lines(Transport::Http, Moment::Opened, security, address).len() == 10,
{
    lemma_shows_in(
        moment_lines(Transport::Stdio, Moment::Starting, security, address),
        0,
        0,
        Style::GreenBold,
        "Starting CodeGraph MCP Server with 100% Official SDK..."@,
    );
    lemma_shows_in(
        moment_lines(Transport::Http, Moment::Starting, security, address),
        0,
        0,
        Style::GreenBold,
        "Starting CodeGraph MCP Server with HTTP transport..."@,
    );
}

} // verus!
