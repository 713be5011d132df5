use codegraph::clock::Timestamp;
use codegraph::error::{ProcessError, Refusal};
use codegraph::launch::{Arg, Launch, PidFilePath, Transport};
use codegraph::mapped_file::Platform;
use codegraph::process::{DualStep, ProcessManager, ProcessStatus};
use codegraph::shutdown::{is_process_running, raw_pid, Probe};
use codegraph::shutdown::{Stop, StopAction, StopEvent, StopState};
use std::path::PathBuf;

const NOW: Timestamp = Timestamp { secs: 1_700_000_000, nanos: 0 };

fn texts(args: &[Arg]) -> Vec<String> {
    args.iter()
        .map(|a| match a {
            Arg::Text(s) => s.clone(),
            Arg::Path(p) => p.to_string_lossy().into_owned(),
        })
        .collect()
}

fn stdio() -> Launch {
    ProcessManager::start_stdio_server(None, false, None, 8192)
}

#[test]
fn test_process_status() {
    let status = ProcessStatus::Running;
    assert_eq!(status, ProcessStatus::Running);

    let failed = ProcessStatus::Failed("Error".to_string());
    assert_ne!(failed, ProcessStatus::Running);
}

#[test]
fn test_pid_file_operations() {
    let mut manager = ProcessManager::new();
    let pid_file = PathBuf::from("test.pid");

    let launch = ProcessManager::start_stdio_server(None, true, Some(pid_file.clone()), 8192);
    let written = manager.started(launch, 12345, NOW).unwrap();
    assert_eq!(written.path, PidFilePath::At(pid_file.clone()));
    assert_eq!(written.text, "12345");
    manager.write_pid_file(pid_file.clone());

    let pid = ProcessManager::read_pid_file(&written.text).unwrap();
    assert_eq!(pid, 12345);

    assert_eq!(manager.cleanup(), &vec![pid_file]);
}

#[test]
fn pid_files_may_hold_white_space() {
    assert_eq!(ProcessManager::read_pid_file(" 77\n"), Ok(77));
    assert_eq!(ProcessManager::read_pid_file("+5"), Ok(5));
    assert_eq!(ProcessManager::read_pid_file("4294967295"), Ok(u32::MAX));
    assert_eq!(ProcessManager::read_pid_file("4294967296"), Err(ProcessError::InvalidPid));
    assert_eq!(ProcessManager::read_pid_file("-1"), Err(ProcessError::InvalidPid));
    assert_eq!(ProcessManager::read_pid_file(""), Err(ProcessError::InvalidPid));
    assert_eq!(ProcessManager::read_pid_file("1 2"), Err(ProcessError::InvalidPid));
}

#[test]
fn command_lines_of_servers() {
    let conf = Some(PathBuf::from("c.toml"));
    let l = ProcessManager::start_stdio_server(conf.clone(), true, None, 4096);
    assert_eq!(texts(&l.args), ["serve-stdio", "--config", "c.toml", "--buffer-size", "4096"]);
    assert_eq!(l.label, "stdio");
    assert!(l.detached);
    assert_eq!(l.pid_file, None);
    assert_eq!(l.spawn_failure(), "Failed to spawn STDIO server in daemon mode");
    assert_eq!(stdio().spawn_failure(), "Failed to spawn STDIO server");

    let cert = Some(PathBuf::from("c.pem"));
    let key = Some(PathBuf::from("k.pem"));
    let h = ProcessManager::start_http_server(
        "0.0.0.0",
        3000,
        None,
        false,
        None,
        true,
        cert.clone(),
        key.clone(),
    );
    assert_eq!(
        texts(&h.args),
        [
            "serve-http", "--host", "0.0.0.0", "--port", "3000", "--tls", "--cert", "c.pem",
            "--key", "k.pem"
        ]
    );
    assert_eq!(h.label, "http://0.0.0.0:3000");
    assert_eq!(h.spawn_failure(), "Failed to spawn HTTP server");
    let plain =
        ProcessManager::start_http_server("h", 1, conf, true, None, false, cert, key);
    assert_eq!(
        texts(&plain.args),
        ["serve-http", "--host", "h", "--port", "1", "--config", "c.toml"]
    );
    assert_eq!(plain.spawn_failure(), "Failed to spawn HTTP server in daemon mode");
}

#[test]
fn two_servers_have_two_pid_files() {
    let pid = Some(PathBuf::from("run/cg.pid"));
    let (a, b) = ProcessManager::start_dual_transport("h", 80, 1, None, false, pid.clone());
    assert_eq!(a.transport, Transport::Stdio);
    assert_eq!(b.transport, Transport::Http);
    assert_eq!(
        a.pid_file,
        Some(PidFilePath::WithExtension(pid.clone().unwrap(), "stdio.pid".to_string()))
    );
    assert_eq!(
        b.pid_file,
        Some(PidFilePath::WithExtension(pid.unwrap(), "http.pid".to_string()))
    );
}

#[test]
fn a_started_server_is_found_until_it_is_stopped() {
    let mut manager = ProcessManager::default();
    assert_eq!(manager.find_running_server_pid(), Err(ProcessError::NoRunningServer));
    assert_eq!(manager.target_pid(None), Err(ProcessError::NoRunningServer));
    assert!(manager.started(stdio(), 41, NOW).is_none());
    assert_eq!(manager.find_running_server_pid(), Ok(41));
    assert_eq!(manager.target_pid(None), Ok(41));
    assert_eq!(manager.target_pid(Some("9")), Ok(9));

    let info = manager.get_status(41, Probe::Delivered).unwrap();
    assert_eq!(info.pid, 41);
    assert_eq!(info.transport, "stdio");
    assert_eq!(info.start_time, NOW);
    assert_eq!(info.status, ProcessStatus::Running);

    manager.stop_server(41);
    assert_eq!(manager.find_running_server_pid(), Err(ProcessError::NoRunningServer));
    let info = manager.get_status(41, Probe::Delivered).unwrap();
    assert_eq!(info.status, ProcessStatus::Stopped);
}

#[test]
fn stopping_one_server_leaves_the_others() {
    let mut manager = ProcessManager::new();
    manager.started(stdio(), 1, NOW);
    let http =
        ProcessManager::start_http_server("h", 3000, None, false, None, false, None, None);
    manager.started(http, 2, NOW);
    manager.stop_server(1);
    assert_eq!(manager.find_running_server_pid(), Ok(2));
    assert_eq!(
        manager.get_status(2, Probe::Delivered).unwrap().transport,
        "http://h:3000"
    );
}

#[test]
fn status_errors() {
    let mut manager = ProcessManager::new();
    manager.started(stdio(), 41, NOW);
    let err = |m: &ProcessManager, pid: u32, probe: Probe| m.get_status(pid, probe).unwrap_err();
    assert_eq!(err(&manager, 41, Probe::NoSuchProcess), ProcessError::NotRunning);
    assert_eq!(err(&manager, 41, Probe::NoHandle), ProcessError::NotRunning);
    assert_eq!(err(&manager, 42, Probe::Delivered), ProcessError::InfoNotFound);
    assert_eq!(
        err(&manager, 41, Probe::SignalError("EPERM".to_string())),
        ProcessError::CheckFailed("EPERM".to_string())
    );
    assert_eq!(err(&manager, 41, Probe::NoExitCode), ProcessError::ExitCodeUnknown(41));
    assert_eq!(is_process_running(1, Probe::ExitCode(259)), Ok(true));
    assert_eq!(is_process_running(1, Probe::ExitCode(0)), Ok(false));
}

#[test]
fn error_messages() {
    let says = |e: ProcessError, text: &str| assert_eq!(e.message(), text);
    says(ProcessError::InvalidPid, "Invalid PID in file");
    says(ProcessError::NoRunningServer, "No running server found");
    says(ProcessError::NotRunning, "Server is not running");
    says(ProcessError::InfoNotFound, "Process information not found");
    says(ProcessError::CheckFailed("x".to_string()), "Failed to check process: x");
    says(ProcessError::ExitCodeUnknown(7), "GetExitCodeProcess failed for pid 7");
    says(ProcessError::TermRefused, "Failed to send SIGTERM");
    says(ProcessError::KillRefused(Refusal::Signal, 7), "Failed to send SIGKILL");
    says(ProcessError::KillRefused(Refusal::OpenProcess, 7), "OpenProcess(7) failed");
    says(ProcessError::KillRefused(Refusal::TerminateProcess, 7), "TerminateProcess(7) failed");
}

#[test]
fn a_process_is_asked_before_it_is_killed() {
    let stop = Stop::begin(9, false, Platform::Unix);
    assert_eq!(stop.action(), StopAction::SendTerm(9));
    let stop = stop.advance(StopEvent::Sent);
    assert_eq!(stop.action(), StopAction::Sleep(5));
    let stop = stop.advance(StopEvent::Waited);
    assert_eq!(stop.action(), StopAction::Ask(9));
    let stop = stop.advance(StopEvent::Checked(Probe::Delivered));
    assert_eq!(stop.action(), StopAction::SendKill(9));
    let stop = stop.advance(StopEvent::Sent);
    assert_eq!(stop.state, StopState::Stopped);
    assert_eq!(stop.action(), StopAction::Nothing);
}

#[test]
fn a_process_that_ends_is_not_killed() {
    let stop = Stop::begin(9, false, Platform::Unix)
        .advance(StopEvent::Sent)
        .advance(StopEvent::Waited)
        .advance(StopEvent::Checked(Probe::NoSuchProcess));
    assert_eq!(stop.state, StopState::Stopped);
}

#[test]
fn refused_signals_fail() {
    let term = Stop::begin(9, false, Platform::Unix).advance(StopEvent::Refused(Refusal::Signal));
    assert_eq!(term.state, StopState::Failed(ProcessError::TermRefused));
    let kill = Stop::begin(9, true, Platform::Unix);
    assert_eq!(kill.action(), StopAction::SendKill(9));
    let kill = kill.advance(StopEvent::Refused(Refusal::Signal));
    assert_eq!(kill.state, StopState::Failed(ProcessError::KillRefused(Refusal::Signal, 9)));
    let windows = Stop::begin(9, false, Platform::Windows);
    assert_eq!(windows.action(), StopAction::SendKill(9));
    let unknown = Stop::begin(9, false, Platform::Unix)
        .advance(StopEvent::Sent)
        .advance(StopEvent::Waited)
        .advance(StopEvent::Checked(Probe::SignalError("EPERM".to_string())));
    assert_eq!(
        unknown.state,
        StopState::Failed(ProcessError::CheckFailed("EPERM".to_string()))
    );
}

#[test]
fn large_process_numbers_turn_negative() {
    assert_eq!(raw_pid(7), 7);
    assert_eq!(raw_pid(0x7fff_ffff), i32::MAX);
    assert_eq!(raw_pid(0x8000_0000), i32::MIN);
    assert_eq!(raw_pid(u32::MAX), -1);
}

#[test]
fn the_second_server_follows_the_first() {
    let (_, http) = ProcessManager::start_dual_transport("h", 80, 1, None, false, None);
    match ProcessManager::after_first(Ok(5), http) {
        DualStep::StartSecond(pid, launch) => {
            assert_eq!(pid, 5);
            assert_eq!(launch.transport, Transport::Http);
        }
        DualStep::Fail(_) => unreachable!(),
    }
    let (_, http) = ProcessManager::start_dual_transport("h", 80, 1, None, false, None);
    assert_eq!(
        ProcessManager::after_first(Err("x".to_string()), http),
        DualStep::Fail("x".to_string())
    );
}

#[test]
fn recorded_files_are_handed_out_again_and_again() {
    let mut manager = ProcessManager::new();
    assert!(manager.cleanup().is_empty());
    manager.write_pid_file(PathBuf::from("a"));
    manager.started(stdio(), 1, NOW);
    manager.write_pid_file(PathBuf::from("b"));
    manager.stop_server(1);
    let files = vec![PathBuf::from("a"), PathBuf::from("b")];
    assert_eq!(manager.cleanup(), &files);
    assert_eq!(manager.cleanup(), &files);
}

#[test]
fn servers_are_told_of_options() {
    let plain = stdio().with_options(false, None, false, false);
    assert_eq!(texts(&plain.args), texts(&stdio().args));
    let told = stdio().with_options(true, Some(PathBuf::from("w")), true, true);
    assert_eq!(
        texts(&told.args),
        [
            "serve-stdio", "--buffer-size", "8192", "--watch", "--watch-path", "w", "--no-watch",
            "--cors"
        ]
    );
    assert_eq!(told.label, "stdio");
}

#[test]
fn only_a_stopped_process_is_marked() {
    let mut manager = ProcessManager::new();
    manager.started(stdio(), 9, NOW);
    let refused = Stop::begin(9, true, Platform::Unix).advance(StopEvent::Refused(Refusal::Signal));
    assert_eq!(
        manager.finish_stop(refused),
        Err(ProcessError::KillRefused(Refusal::Signal, 9))
    );
    assert_eq!(manager.find_running_server_pid(), Ok(9));
    let stopped = Stop::begin(9, true, Platform::Unix).advance(StopEvent::Sent);
    assert_eq!(manager.finish_stop(stopped), Ok(()));
    assert_eq!(manager.find_running_server_pid(), Err(ProcessError::NoRunningServer));
}
