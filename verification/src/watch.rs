//! The daemon that watches a project for changes: how it is started, stopped and shown.
use crate::error::Refusal;
use crate::indexing::{asked_languages, languages_or_none};
use crate::json::{has_field, lemma_has_field, Fields, Json, JsonView};
use crate::json::{no_fields, object};
use crate::launch::{args_view, push_text, Arg, ArgView};
use crate::report::{Line, Report, Style};
use crate::report::{field_line, lemma_shows, lemma_shows_in, shows, shows_in, styled_line};
use crate::shutdown::{addresses, raw_pid};
use crate::text::{decimal, decimal_text, join, joined, texts};
use std::path::PathBuf;
use vstd::prelude::*;

verus! {

/// The milliseconds that a change is waited on.
pub const DEBOUNCE_MS: u64 = 30;

/// The milliseconds after which a batch of changes is handled.
pub const BATCH_TIMEOUT_MS: u64 = 200;

/// The seconds between two checks of the daemon.
pub const HEALTH_CHECK_INTERVAL_SECS: u64 = 30;

/// The seconds that the daemon is given to end before it is looked at again.
pub const STOP_SECONDS: u64 = 2;

/// How a project is watched.
#[derive(Debug)]
pub struct WatchSettings {
    pub languages: Vec<String>,
    pub exclude_patterns: Vec<String>,
    pub include_patterns: Vec<String>,
    pub project_root: PathBuf,
    pub debounce_ms: u64,
    pub batch_timeout_ms: u64,
    pub health_check_interval_secs: u64,
}

impl WatchSettings {
    /// How the project in `project_root` is watched.
    pub fn new(
        languages: Option<Vec<String>>,
        exclude: Vec<String>,
        include_only: Vec<String>,
        project_root: PathBuf,
    ) -> (r: Self)
        ensures
            asked_languages(r.languages@, languages),
            languages matches Some(v) ==> r.languages@ == v@,
            languages is None ==> r.languages@.len() == 0,
            r.exclude_patterns == exclude,
            r.include_patterns == include_only,
            r.project_root == project_root,
            r.debounce_ms == DEBOUNCE_MS == 30,
            r.batch_timeout_ms == BATCH_TIMEOUT_MS == 200,
            r.health_check_interval_secs == HEALTH_CHECK_INTERVAL_SECS == 30,
    {
        WatchSettings {
            languages: languages_or_none(languages),
            exclude_patterns: exclude,
            include_patterns: include_only,
            project_root,
            debounce_ms: DEBOUNCE_MS,
            batch_timeout_ms: BATCH_TIMEOUT_MS,
            health_check_interval_secs: HEALTH_CHECK_INTERVAL_SECS,
        }
    }
}

/// Whether a daemon may be started: not if one runs, which then is the error, with the PID file in it.
pub fn may_start(running: bool, pid_path: &str) -> (r: Result<(), String>)
    ensures
        r is Ok <==> !running,
        r matches Err(message) ==> message@ == "Daemon already running for this project (PID file: "@
            + pid_path@ + ")"@,
{
    if running {
        Err(
            String::from_str("Daemon already running for this project (PID file: ").concat(
                pid_path,
            ).concat(")"),
        )
    } else {
        Ok(())
    }
}

/// What is shown before a daemon is started.
pub fn starting_line(root: &str) -> (r: Line)
    ensures
        r@ == seq![(Style::Green, "🚀 Starting watch daemon for: "@), (Style::Green, root@)],
{
    let r = Line::new().with(Style::Green, "🚀 Starting watch daemon for: ").with(
        Style::Green,
        root,
    );
    assert(r@ =~= seq![(Style::Green, "🚀 Starting watch daemon for: "@), (Style::Green, root@)]);
    r
}

/// Where a daemon runs.
#[derive(Debug, Clone, Copy, PartialEq, Eq, Structural)]
pub enum DaemonRun {
    /// In this process, until it is stopped.
    Foreground,
    /// In a process of its own, which goes on after this one.
    Background,
}

/// Where a daemon runs: in the background, unless the foreground is asked for.
pub fn daemon_run(foreground: bool) -> (r: DaemonRun)
    ensures
        r == if foreground {
            DaemonRun::Foreground
        } else {
            DaemonRun::Background
        },
{
    if foreground {
        DaemonRun::Foreground
    } else {
        DaemonRun::Background
    }
}

/// A flag with each of some values.
pub open spec fn flag_args(flag: Seq<char>, values: Seq<String>) -> Seq<ArgView> {
    values.map_values(|v: String| ArgView::Text(flag + v@))
}

/// The command line of a daemon in a process of its own: it runs in the foreground of that process.
pub open spec fn background_args(settings: WatchSettings) -> Seq<ArgView> {
    seq![
        ArgView::Text("daemon"@),
        ArgView::Text("start"@),
        ArgView::Path(settings.project_root),
        ArgView::Text("--foreground"@),
    ] + (if settings.languages@.len() > 0 {
        seq![ArgView::Text("--languages="@ + joined(texts(settings.languages@), ","@))]
    } else {
        seq![]
    }) + flag_args("--exclude="@, settings.exclude_patterns@) + flag_args(
        "--include="@,
        settings.include_patterns@,
    )
}

fn push_flags(args: &mut Vec<Arg>, flag: &str, values: &Vec<String>)
    ensures
        args_view(final(args)@) == args_view(old(args)@) + flag_args(flag@, values@),
{
    let n: usize = values.len();
    let mut i: usize = 0;
    assert(args_view(args@) =~= args_view(old(args)@) + flag_args(flag@, values@.take(0)));
    while i < n
        invariant
            i <= n == values@.len(),
            args_view(args@) == args_view(old(args)@) + flag_args(flag@, values@.take(i as int)),
        decreases n - i,
    {
        push_text(args, String::from_str(flag).concat(values[i].as_str()).as_str());
        i = i + 1;
        assert(flag_args(flag@, values@.take(i as int)) =~= flag_args(
            flag@,
            values@.take(i - 1),
        ).push(ArgView::Text(flag@ + values@[i - 1]@)));
        assert(args_view(args@) =~= args_view(old(args)@) + flag_args(
            flag@,
            values@.take(i as int),
        ));
    }
    assert(values@.take(n as int) =~= values@);
}

impl WatchSettings {
    /// The command line of a daemon in a process of its own.
    pub fn background_args(&self) -> (r: Vec<Arg>)
        ensures
            args_view(r@) == background_args(*self),
    {
        let mut args: Vec<Arg> = Vec::new();
        push_text(&mut args, "daemon");
        push_text(&mut args, "start");
        let ghost named = args@;
        args.push(Arg::Path(self.project_root.clone()));
        assert(args_view(args@) =~= args_view(named).push(ArgView::Path(self.project_root)));
        push_text(&mut args, "--foreground");
        if self.languages.len() > 0 {
            push_text(
                &mut args,
                String::from_str("--languages=").concat(
                    join(&self.languages, ",").as_str(),
                ).as_str(),
            );
        }
        push_flags(&mut args, "--exclude=", &self.exclude_patterns);
        push_flags(&mut args, "--include=", &self.include_patterns);
        assert(args_view(args@) =~= background_args(*self));
        args
    }
}

/// What is shown of a daemon that begins to watch in this process.
pub fn foreground_notice() -> (r: Report)
    ensures
        r@ == seq![styled_line(Style::Yellow, "Running in foreground. Press Ctrl+C to stop."@)],
{
    let mut r = Report::new();
    r.styled(Style::Yellow, "Running in foreground. Press Ctrl+C to stop.");
    r
}

/// What is shown of a daemon that was started in a process of its own.
pub open spec fn background_lines(pid: nat) -> Seq<Seq<(Style, Seq<char>)>> {
    seq![
        seq![
            (Style::Green, "✅ Daemon running in background (PID: "@),
            (Style::Green, decimal(pid)),
            (Style::Green, ")"@),
        ],
        styled_line(Style::Yellow, "Run 'codegraph daemon stop' to stop it."@),
    ]
}

/// What is shown of a daemon that was started in a process of its own.
pub fn background_notice(pid: u32) -> (r: Report)
    ensures
        r@ == background_lines(pid as nat),
{
    let mut r = Report::new();
    r.push(
        Line::new().with(Style::Green, "✅ Daemon running in background (PID: ").with(
            Style::Green,
            decimal_text(pid as u64).as_str(),
        ).with(Style::Green, ")"),
    );
    r.styled(Style::Yellow, "Run 'codegraph daemon stop' to stop it.");
    assert(r@ =~~= background_lines(pid as nat));
    r
}

/// Why the stop signal for a process could not be sent: what refused it, and what the system said.
pub open spec fn signal_message(by: Refusal, pid: u32, detail: Seq<char>) -> Seq<char> {
    match by {
        Refusal::Signal => "kill(SIGTERM) failed: "@ + detail,
        Refusal::OpenProcess => "OpenProcess("@ + decimal(pid as nat) + ") failed"@,
        Refusal::TerminateProcess => "TerminateProcess("@ + decimal(pid as nat) + ") failed"@,
    }
}

/// Why the stop signal for a process could not be sent.
pub fn signal_failure(by: Refusal, pid: u32, detail: &str) -> (r: String)
    ensures
        r@ == signal_message(by, pid, detail@),
{
    match by {
        Refusal::Signal => String::from_str("kill(SIGTERM) failed: ").concat(detail),
        Refusal::OpenProcess => String::from_str("OpenProcess(").concat(
            decimal_text(pid as u64).as_str(),
        ).concat(") failed"),
        Refusal::TerminateProcess => String::from_str("TerminateProcess(").concat(
            decimal_text(pid as u64).as_str(),
        ).concat(") failed"),
    }
}

/// How far the end of a daemon has come.
#[derive(Debug, PartialEq, Eq)]
pub enum DaemonStopState {
    /// The stop signal is to be sent.
    Send,
    /// The daemon is to be given time.
    Wait,
    /// The daemon is to be looked at.
    Check,
    /// It was seen whether the daemon still runs.
    Seen(bool),
    /// There was no daemon.
    Absent,
    /// The stop signal could not be sent, for this reason.
    Refused(String),
}

/// What was done about the end of a daemon.
#[derive(Debug, PartialEq, Eq)]
pub enum DaemonStopEvent {
    Sent,
    Refused(String),
    Waited,
    Checked(bool),
}

/// What is to be done next about the end of a daemon.
#[derive(Debug, Clone, Copy, PartialEq, Eq, Structural)]
pub enum DaemonStopAction {
    SendTerm(i32),
    Sleep(u64),
    Ask,
    Nothing,
}

/// The end of a daemon, underway.
#[derive(Debug, PartialEq, Eq)]
pub struct DaemonStop {
    pub pid: u32,
    pub state: DaemonStopState,
}

/// The step that follows `state` after `event`.
pub open spec fn next_daemon_step(state: DaemonStopState, event: DaemonStopEvent) -> DaemonStopState {
    match (state, event) {
        (DaemonStopState::Send, DaemonStopEvent::Sent) => DaemonStopState::Wait,
        (DaemonStopState::Send, DaemonStopEvent::Refused(reason)) => DaemonStopState::Refused(
            reason,
        ),
        (DaemonStopState::Wait, DaemonStopEvent::Waited) => DaemonStopState::Check,
        (DaemonStopState::Check, DaemonStopEvent::Checked(runs)) => DaemonStopState::Seen(runs),
        _ => state,
    }
}

impl DaemonStop {
    /// Begins to bring the daemon to its end whose process number its PID file gives.
    pub fn begin(pid: Option<u32>) -> (r: Self)
        ensures
            match pid {
                Some(p) => r == (DaemonStop { pid: p, state: DaemonStopState::Send }),
                None => r.state is Absent,
            },
    {
        match pid {
            Some(p) => DaemonStop { pid: p, state: DaemonStopState::Send },
            None => DaemonStop { pid: 0, state: DaemonStopState::Absent },
        }
    }

    /// What is to be done now.
    pub fn action(&self) -> (r: DaemonStopAction)
        ensures
            match self.state {
                DaemonStopState::Send => r matches DaemonStopAction::SendTerm(p) && addresses(
                    p,
                    self.pid,
                ),
                DaemonStopState::Wait => r == DaemonStopAction::Sleep(STOP_SECONDS) && STOP_SECONDS
                    == 2,
                DaemonStopState::Check => r == DaemonStopAction::Ask,
                _ => r == DaemonStopAction::Nothing,
            },
    {
        match self.state {
            DaemonStopState::Send => DaemonStopAction::SendTerm(raw_pid(self.pid)),
            DaemonStopState::Wait => DaemonStopAction::Sleep(STOP_SECONDS),
            DaemonStopState::Check => DaemonStopAction::Ask,
            DaemonStopState::Seen(_) => DaemonStopAction::Nothing,
            DaemonStopState::Absent => DaemonStopAction::Nothing,
            DaemonStopState::Refused(_) => DaemonStopAction::Nothing,
        }
    }

    /// Takes note of what was done.
    pub fn advance(self, event: DaemonStopEvent) -> (r: Self)
        ensures
            r.pid == self.pid,
            r.state == next_daemon_step(self.state, event),
    {
        let pid: u32 = self.pid;
        let state = match (self.state, event) {
            (DaemonStopState::Send, DaemonStopEvent::Sent) => DaemonStopState::Wait,
            (DaemonStopState::Send, DaemonStopEvent::Refused(reason)) => DaemonStopState::Refused(
                reason,
            ),
            (DaemonStopState::Wait, DaemonStopEvent::Waited) => DaemonStopState::Check,
            (DaemonStopState::Check, DaemonStopEvent::Checked(runs)) => DaemonStopState::Seen(runs),
            (state, _) => state,
        };
        DaemonStop { pid, state }
    }

    /// What is shown on entering this step, for a project in the directory `root`.
    pub fn notice(&self, root: &str) -> (r: Report)
        ensures
            r@ == daemon_stop_lines(*self, root@),
    {
        let mut r = Report::new();
        match &self.state {
            DaemonStopState::Send => {
                r.push(
                    Line::new().with(Style::Yellow, "🛑 Stopping daemon (PID: ").with(
                        Style::Yellow,
                        decimal_text(self.pid as u64).as_str(),
                    ).with(Style::Yellow, ")..."),
                );
            },
            DaemonStopState::Wait => {
                r.styled(Style::Green, "✅ Stop signal sent successfully");
            },
            DaemonStopState::Check => {},
            DaemonStopState::Seen(runs) => if *runs {
                r.styled(
                    Style::Yellow,
                    "⚠️  Daemon still running. May take a moment to shut down.",
                );
            } else {
                r.styled(Style::Green, "✅ Daemon stopped");
            },
            DaemonStopState::Absent => {
                r.push(
                    Line::new().with(Style::Yellow, "No daemon running for: ").with(
                        Style::Yellow,
                        root,
                    ),
                );
            },
            DaemonStopState::Refused(_) => {},
        }
        assert(r@ =~~= daemon_stop_lines(*self, root@));
        r
    }

    /// The error that the end of the daemon came to, if the stop signal could not be sent.
    pub fn failure(&self) -> (r: Option<String>)
        ensures
            match self.state {
                DaemonStopState::Refused(reason) => r matches Some(message) && message@
                    == "Failed to send stop signal: "@ + reason@,
                _ => r is None,
            },
    {
        match &self.state {
            DaemonStopState::Refused(reason) => Some(
                String::from_str("Failed to send stop signal: ").concat(reason.as_str()),
            ),
            _ => None,
        }
    }
}

/// What is shown on entering a step towards the end of a daemon.
pub open spec fn daemon_stop_lines(s: DaemonStop, root: Seq<char>) -> Seq<Seq<(Style, Seq<char>)>> {
    match s.state {
        DaemonStopState::Send => seq![
            seq![
                (Style::Yellow, "🛑 Stopping daemon (PID: "@),
                (Style::Yellow, decimal(s.pid as nat)),
                (Style::Yellow, ")..."@),
            ],
        ],
        DaemonStopState::Wait => seq![
            styled_line(Style::Green, "✅ Stop signal sent successfully"@),
        ],
        DaemonStopState::Check => seq![],
        DaemonStopState::Seen(true) => seq![
            styled_line(
                Style::Yellow,
                "⚠️  Daemon still running. May take a moment to shut down."@,
            ),
        ],
        DaemonStopState::Seen(false) => seq![styled_line(Style::Green, "✅ Daemon stopped"@)],
        DaemonStopState::Absent => seq![
            seq![(Style::Yellow, "No daemon running for: "@), (Style::Yellow, root)],
        ],
        DaemonStopState::Refused(_) => seq![],
    }
}

/// What a PID file and the process it names tell of a daemon.
#[derive(Debug, Clone, Copy, PartialEq, Eq, Structural)]
pub struct DaemonStatus {
    pub running: bool,
    pub pid: Option<u32>,
}

impl DaemonStatus {
    /// The state of a daemon, by its PID file and by whether the process that it names runs.
    pub fn new(pid: Option<u32>, process_runs: bool) -> (r: Self)
        ensures
            r.running == (pid is Some && process_runs),
            r.pid == pid,
    {
        match pid {
            Some(p) => DaemonStatus { running: process_runs, pid: Some(p) },
            None => DaemonStatus { running: false, pid: None },
        }
    }

    /// The state of the daemon, as a document.
    pub fn json(&self, root: &str, pid_path: &str) -> (r: Json)
        ensures
            r@ == daemon_document(*self, root@, pid_path@),
    {
        let pid = match self.pid {
            Some(p) => Json::Number(p as u64),
            None => Json::Null,
        };
        Fields::new().with("project", Json::text(root)).with(
            "running",
            Json::Bool(self.running),
        ).with("pid", pid).with("pid_file", Json::text(pid_path)).done()
    }

    /// What is shown of the daemon.
    pub fn report(&self, root: &str, pid_path: &str) -> (r: Report)
        ensures
            r@ == daemon_status_lines(*self, root@, pid_path@),
    {
        let mut r = Report::new();
        r.styled(Style::Bold, "📊 Watch Daemon Status");
        r.field("   Project: ", Style::Plain, root);
        r.field("   PID file: ", Style::Plain, pid_path);
        if self.running {
            let pid: u32 = match self.pid {
                Some(p) => p,
                None => 0,
            };
            r.push(
                Line::new().plain("   Status: ").with(Style::Green, "Running").plain(
                    " (PID: ",
                ).plain(decimal_text(pid as u64).as_str()).plain(")"),
            );
        } else {
            r.field("   Status: ", Style::Red, "Stopped");
            if self.pid.is_some() {
                r.field(
                    "   ",
                    Style::Yellow,
                    "⚠️  Stale PID file detected. Run 'daemon start' to clean up.",
                );
            }
        }
        assert(r@ =~~= daemon_status_lines(*self, root@, pid_path@));
        r
    }
}

/// The state of a daemon, as a document.
pub open spec fn daemon_document(
    s: DaemonStatus,
    root: Seq<char>,
    pid_path: Seq<char>,
) -> JsonView {
    object(no_fields()
        .push(("project"@, JsonView::Text(root)))
        .push(("running"@, JsonView::Bool(s.running)))
        .push((
                "pid"@,
                match s.pid {
                    Some(p) => JsonView::Number(p as nat),
                    None => JsonView::Null,
                },
        ))
        .push(("pid_file"@, JsonView::Text(pid_path))))
}

/// What is shown of a daemon.
pub open spec fn daemon_status_lines(
    s: DaemonStatus,
    root: Seq<char>,
    pid_path: Seq<char>,
) -> Seq<Seq<(Style, Seq<char>)>> {
    let head = seq![
        styled_line(Style::Bold, "📊 Watch Daemon Status"@),
        field_line("   Project: "@, Style::Plain, root),
        field_line("   PID file: "@, Style::Plain, pid_path),
    ];
    if s.running {
        head.push(
            seq![
                (Style::Plain, "   Status: "@),
                (Style::Green, "Running"@),
                (Style::Plain, " (PID: "@),
                (
                    Style::Plain,
                    decimal(
                        match s.pid {
                            Some(p) => p as nat,
                            None => 0,
                        },
                    ),
                ),
                (Style::Plain, ")"@),
            ],
        )
    } else {
        let stopped = head.push(field_line("   Status: "@, Style::Red, "Stopped"@));
        if s.pid is Some {
            stopped.push(
                field_line(
                    "   "@,
                    Style::Yellow,
                    "⚠️  Stale PID file detected. Run 'daemon start' to clean up."@,
                ),
            )
        } else {
            stopped
        }
    }
}

/// How many steps are at most left.
pub open spec fn daemon_steps_left(state: DaemonStopState) -> nat {
    match state {
        DaemonStopState::Send => 3,
        DaemonStopState::Wait => 2,
        DaemonStopState::Check => 1,
        _ => 0,
    }
}

/// Whether `event` can follow from what is to be done in `state`.
pub open spec fn daemon_answers(state: DaemonStopState, event: DaemonStopEvent) -> bool {
    match state {
        DaemonStopState::Send => event is Sent || event is Refused,
        DaemonStopState::Wait => event is Waited,
        DaemonStopState::Check => event is Checked,
        _ => false,
    }
}

/// Every answer brings the end closer, and the daemon is sent a signal at most once.
pub proof fn law_daemon_stop_makes_progress(state: DaemonStopState, event: DaemonStopEvent)
    requires
        daemon_answers(state, event),
    ensures
        daemon_steps_left(next_daemon_step(state, event)) < daemon_steps_left(state),
        !(next_daemon_step(state, event) is Send),
{
}

/// A daemon in a process of its own is told to run in the foreground there, so that starting it does not
/// start yet another process.
pub proof fn law_background_daemon_stays(settings: WatchSettings)
    ensures
        background_args(settings)[3] == ArgView::Text("--foreground"@),
        background_args(settings)[2] == ArgView::Path(settings.project_root),
{
}

/// The command line of a daemon in a process of its own has every pattern of its settings, each behind its
/// own flag and in their order, and all languages in one argument if there are any; and nothing else but
/// the command and the directory.
pub proof fn law_daemon_is_told_its_settings(settings: WatchSettings, i: int)
    ensures
        ({
            let args = background_args(settings);
            let named = if settings.languages@.len() > 0 {
                1int
            } else {
                0int
            };
            let excluded = settings.exclude_patterns@;
            let included = settings.include_patterns@;
            &&& args.len() == 4 + named + excluded.len() + included.len()
            &&& args[0] == ArgView::Text("daemon"@)
            &&& args[1] == ArgView::Text("start"@)
            &&& named == 1 ==> args[4] == ArgView::Text(
                "--languages="@ + joined(texts(settings.languages@), ","@),
            )
            &&& 0 <= i < excluded.len() ==> args[4 + named + i] == ArgView::Text(
                "--exclude="@ + excluded[i]@,
            )
            &&& 0 <= i < included.len() ==> args[4 + named + excluded.len() + i] == ArgView::Text(
                "--include="@ + included[i]@,
            )
        }),
{
}

/// A daemon whose stop signal was sent is given time, looked at, and taken to be what it was seen to be; where
/// the signal was refused, the reason is kept. Nothing else moves its end on.
pub proof fn law_course_of_a_daemon_stop(
    state: DaemonStopState,
    event: DaemonStopEvent,
    reason: String,
    runs: bool,
)
    ensures
        next_daemon_step(DaemonStopState::Send, DaemonStopEvent::Sent) is Wait,
        next_daemon_step(DaemonStopState::Wait, DaemonStopEvent::Waited) is Check,
        next_daemon_step(DaemonStopState::Check, DaemonStopEvent::Checked(runs))
            == DaemonStopState::Seen(runs),
        next_daemon_step(DaemonStopState::Send, DaemonStopEvent::Refused(reason))
            == DaemonStopState::Refused(reason),
        next_daemon_step(state, event) != state ==> {
            ||| state is Send && (event is Sent || event is Refused)
            ||| state is Wait && event is Waited
            ||| state is Check && event is Checked
        },
        next_daemon_step(state, event) is Seen && !(state is Seen) ==> state is Check && event
            == DaemonStopEvent::Checked(next_daemon_step(state, event)->Seen_0),
{
}

/// On its way to its end, a daemon is shown with its number when it is told to stop, as stopped exactly if it
/// was seen not to run, and with its directory if there was none.
pub proof fn law_daemon_stop_is_shown(pid: u32, root: Seq<char>)
    ensures
        shows(
            daemon_stop_lines(DaemonStop { pid, state: DaemonStopState::Send }, root),
            "🛑 Stopping daemon (PID: "@ + decimal(pid as nat) + ")..."@,
        ),
        shows(
            daemon_stop_lines(DaemonStop { pid, state: DaemonStopState::Wait }, root),
            "✅ Stop signal sent successfully"@,
        ),
        shows(
            daemon_stop_lines(DaemonStop { pid, state: DaemonStopState::Seen(false) }, root),
            "✅ Daemon stopped"@,
        ),
        shows(
            daemon_stop_lines(DaemonStop { pid, state: DaemonStopState::Seen(true) }, root),
            "⚠️  Daemon still running. May take a moment to shut down."@,
        ),
        shows(
            daemon_stop_lines(DaemonStop { pid, state: DaemonStopState::Absent }, root),
            "No daemon running for: "@ + root,
        ),
{
    lemma_shows(
        daemon_stop_lines(DaemonStop { pid, state: DaemonStopState::Send }, root),
        0,
        "🛑 Stopping daemon (PID: "@ + decimal(pid as nat) + ")..."@,
    );
    lemma_shows(
        daemon_stop_lines(DaemonStop { pid, state: DaemonStopState::Wait }, root),
        0,
        "✅ Stop signal sent successfully"@,
    );
    lemma_shows(
        daemon_stop_lines(DaemonStop { pid, state: DaemonStopState::Seen(false) }, root),
        0,
        "✅ Daemon stopped"@,
    );
    lemma_shows(
        daemon_stop_lines(DaemonStop { pid, state: DaemonStopState::Seen(true) }, root),
        0,
        "⚠️  Daemon still running. May take a moment to shut down."@,
    );
    lemma_shows(
        daemon_stop_lines(DaemonStop { pid, state: DaemonStopState::Absent }, root),
        0,
        "No daemon running for: "@ + root,
    );
}

/// Why a stop signal could not be sent is said with what the system said, or with the number of the process.
pub proof fn law_signal_message(pid: u32, detail: Seq<char>)
    ensures
        signal_message(Refusal::Signal, pid, detail).len() == 22 + detail.len(),
        signal_message(Refusal::Signal, pid, detail).skip(22) == detail,
        signal_message(Refusal::OpenProcess, pid, detail).subrange(
            12,
            12 + decimal(pid as nat).len() as int,
        ) == decimal(pid as nat),
        signal_message(Refusal::OpenProcess, pid, detail).len() == 20 + decimal(pid as nat).len(),
        signal_message(Refusal::TerminateProcess, pid, detail).subrange(
            17,
            17 + decimal(pid as nat).len() as int,
        ) == decimal(pid as nat),
        signal_message(Refusal::TerminateProcess, pid, detail).len() == 25 + decimal(pid as nat).len(),
{
    reveal_strlit("kill(SIGTERM) failed: ");
    reveal_strlit("OpenProcess(");
    reveal_strlit("TerminateProcess(");
    reveal_strlit(") failed");
    let n = decimal(pid as nat);
    assert(signal_message(Refusal::Signal, pid, detail).skip(22) =~= detail);
    assert(signal_message(Refusal::OpenProcess, pid, detail).subrange(12, 12 + n.len() as int)
        =~= n);
    assert(signal_message(Refusal::TerminateProcess, pid, detail).subrange(17, 17 + n.len() as int)
        =~= n);
}

/// A daemon that was started in a process of its own is shown with the number of that process.
pub proof fn law_background_daemon_is_shown(pid: nat)
    ensures
        shows(
            background_lines(pid),
            "✅ Daemon running in background (PID: "@ + decimal(pid) + ")"@,
        ),
        background_lines(pid).len() == 2,
{
    lemma_shows(
        background_lines(pid),
        0,
        "✅ Daemon running in background (PID: "@ + decimal(pid) + ")"@,
    );
}

/// The state of a daemon is shown with its directory and its PID file: as running, with its number, exactly if
/// it runs, and else as stopped; a PID file that names a process that does not run is told to be stale.
pub proof fn law_daemon_status_is_shown(
    s: DaemonStatus,
    pid: u32,
    root: Seq<char>,
    pid_path: Seq<char>,
)
    ensures
        ({
            let lines = daemon_status_lines(s, root, pid_path);
            &&& shows(lines, "   Project: "@ + root)
            &&& shows(lines, "   PID file: "@ + pid_path)
            &&& s.running && s.pid == Some(pid) ==> shows(
                lines,
                "   Status: "@ + "Running"@ + " (PID: "@ + decimal(pid as nat) + ")"@,
            )
            &&& !s.running ==> shows(lines, "   Status: "@ + "Stopped"@)
            &&& !s.running && s.pid is Some ==> shows(
                lines,
                "   "@ + "⚠️  Stale PID file detected. Run 'daemon start' to clean up."@,
            )
            &&& lines.len() == if !s.running && s.pid is Some {
                5nat
            } else {
                4nat
            }
        }),
        ({
            let d = daemon_document(s, root, pid_path);
            &&& has_field(d, "project"@, JsonView::Text(root))
            &&& has_field(d, "running"@, JsonView::Bool(s.running))
            &&& s.pid == Some(pid) ==> has_field(d, "pid"@, JsonView::Number(pid as nat))
            &&& s.pid is None ==> has_field(d, "pid"@, JsonView::Null)
            &&& has_field(d, "pid_file"@, JsonView::Text(pid_path))
            &&& d->Object_0.len() == 4
        }),
{
    let lines = daemon_status_lines(s, root, pid_path);
    lemma_shows(lines, 1, "   Project: "@ + root);
    lemma_shows(lines, 2, "   PID file: "@ + pid_path);
    if s.running && s.pid == Some(pid) {
        lemma_shows(
            lines,
            3,
            "   Status: "@ + "Running"@ + " (PID: "@ + decimal(pid as nat) + ")"@,
        );
    }
    if !s.running {
        lemma_shows(lines, 3, "   Status: "@ + "Stopped"@);
        if s.pid is Some {
            lemma_shows(
                lines,
                4,
                "   "@ + "⚠️  Stale PID file detected. Run 'daemon start' to clean up."@,
            );
        }
    }
    let d = daemon_document(s, root, pid_path);
    lemma_has_field(d, 0, "project"@, JsonView::Text(root));
    lemma_has_field(d, 1, "running"@, JsonView::Bool(s.running));
    lemma_has_field(d, 2, "pid"@, d->Object_0[2].1);
    lemma_has_field(d, 3, "pid_file"@, JsonView::Text(pid_path));
}

/// A daemon that runs is shown in green and one that does not in red; warnings are yellow, and so is a stop that
/// is underway or came to nothing.
pub proof fn law_colours_of_a_daemon(
    s: DaemonStatus,
    pid: u32,
    root: Seq<char>,
    pid_path: Seq<char>,
)
    ensures
        shows_in(daemon_status_lines(s, root, pid_path), Style::Bold, "📊 Watch Daemon Status"@),
        s.running ==> shows_in(daemon_status_lines(s, root, pid_path), Style::Green, "Running"@),
        !s.running ==> shows_in(daemon_status_lines(s, root, pid_path), Style::Red, "Stopped"@),
        !s.running && s.pid is Some ==> shows_in(
            daemon_status_lines(s, root, pid_path),
            Style::Yellow,
            "⚠️  Stale PID file detected. Run 'daemon start' to clean up."@,
        ),
        shows_in(background_lines(pid as nat), Style::Green, decimal(pid as nat)),
        shows_in(
            background_lines(pid as nat),
            Style::Yellow,
            "Run 'codegraph daemon stop' to stop it."@,
        ),
        shows_in(
            daemon_stop_lines(DaemonStop { pid, state: DaemonStopState::Send }, root),
            Style::Yellow,
            decimal(pid as nat),
        ),
        shows_in(
            daemon_stop_lines(DaemonStop { pid, state: DaemonStopState::Wait }, root),
            Style::Green,
            "✅ Stop signal sent successfully"@,
        ),
        shows_in(
            daemon_stop_lines(DaemonStop { pid, state: DaemonStopState::Seen(false) }, root),
            Style::Green,
            "✅ Daemon stopped"@,
        ),
        shows_in(
            daemon_stop_lines(DaemonStop { pid, state: DaemonStopState::Seen(true) }, root),
            Style::Yellow,
            "⚠️  Daemon still running. May take a moment to shut down."@,
        ),
        shows_in(
            daemon_stop_lines(DaemonStop { pid, state: DaemonStopState::Absent }, root),
            Style::Yellow,
            root,
        ),
{
    lemma_shows_in(
        daemon_status_lines(s, root, pid_path),
        0,
        0,
        Style::Bold,
        "📊 Watch Daemon Status"@,
    );
    if s.running {
        lemma_shows_in(daemon_status_lines(s, root, pid_path), 3, 1, Style::Green, "Running"@);
    }
    if !s.running {
        lemma_shows_in(daemon_status_lines(s, root, pid_path), 3, 1, Style::Red, "Stopped"@);
    }
    if !s.running && s.pid is Some {
        lemma_shows_in(
            daemon_status_lines(s, root, pid_path),
            4,
            1,
            Style::Yellow,
            "⚠️  Stale PID file detected. Run 'daemon start' to clean up."@,
        );
    }
    lemma_shows_in(background_lines(pid as nat), 0, 1, Style::Green, decimal(pid as nat));
    lemma_shows_in(
        background_lines(pid as nat),
        1,
        0,
        Style::Yellow,
        "Run 'codegraph daemon stop' to stop it."@,
    );
    lemma_shows_in(
        daemon_stop_lines(DaemonStop { pid, state: DaemonStopState::Send }, root),
        0,
        1,
        Style::Yellow,
        decimal(pid as nat),
    );
    lemma_shows_in(
        daemon_stop_lines(DaemonStop { pid, state: DaemonStopState::Wait }, root),
        0,
        0,
        Style::Green,
        "✅ Stop signal sent successfully"@,
    );
    lemma_shows_in(
        daemon_stop_lines(DaemonStop { pid, state: DaemonStopState::Seen(false) }, root),
        0,
        0,
        Style::Green,
        "✅ Daemon stopped"@,
    );
    lemma_shows_in(
        daemon_stop_lines(DaemonStop { pid, state: DaemonStopState::Seen(true) }, root),
        0,
        0,
        Style::Yellow,
        "⚠️  Daemon still running. May take a moment to shut down."@,
    );
    lemma_shows_in(
        daemon_stop_lines(DaemonStop { pid, state: DaemonStopState::Absent }, root),
        0,
        1,
        Style::Yellow,
        root,
    );
}

} // verus!
