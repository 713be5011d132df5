//! The steps by which a process is brought to its end.
use crate::error::{ProcessError, Refusal};
use crate::mapped_file::Platform;
use vstd::prelude::*;

verus! {

/// The seconds that a process is given to end after the termination signal.
pub const GRACE_SECONDS: u64 = 5;

/// The exit code that Windows gives of a process that still runs.
pub const STILL_ACTIVE: u32 = 259;

/// What the system said when it was asked whether a process runs.
#[derive(Debug, PartialEq, Eq)]
pub enum Probe {
    /// A signal without effect was accepted.
    Delivered,
    /// There is no such process to signal.
    NoSuchProcess,
    /// The signal was refused for another reason.
    SignalError(String),
    /// The process could not be opened.
    NoHandle,
    /// The exit code could not be read.
    NoExitCode,
    /// The process has this exit code.
    ExitCode(u32),
}

/// Whether the process `pid` runs, by what the system said of it.
pub open spec fn running(pid: u32, probe: Probe) -> Result<bool, ProcessError> {
    match probe {
        Probe::Delivered => Ok(true),
        Probe::NoSuchProcess => Ok(false),
        Probe::SignalError(reason) => Err(ProcessError::CheckFailed(reason)),
        Probe::NoHandle => Ok(false),
        Probe::NoExitCode => Err(ProcessError::ExitCodeUnknown(pid)),
        Probe::ExitCode(code) => Ok(code == STILL_ACTIVE),
    }
}

/// Whether the process `pid` runs, by what the system said of it.
pub fn is_process_running(pid: u32, probe: Probe) -> (r: Result<bool, ProcessError>)
    ensures
        r == running(pid, probe),
{
    match probe {
        Probe::Delivered => Ok(true),
        Probe::NoSuchProcess => Ok(false),
        Probe::SignalError(reason) => Err(ProcessError::CheckFailed(reason)),
        Probe::NoHandle => Ok(false),
        Probe::NoExitCode => Err(ProcessError::ExitCodeUnknown(pid)),
        Probe::ExitCode(code) => Ok(code == STILL_ACTIVE),
    }
}

/// The process number in the signed form in which signals are addressed: numbers from 2 to the 31st on
/// turn negative.
pub fn raw_pid(pid: u32) -> (r: i32)
    ensures
        r == if pid < 0x8000_0000 {
            pid as int
        } else {
            pid - 0x1_0000_0000
        },
{
    if pid < 0x8000_0000 {
        pid as i32
    } else {
        (pid as i64 - 0x1_0000_0000) as i32
    }
}

/// How far the end of a process has come.
#[derive(Debug, PartialEq, Eq)]
pub enum StopState {
    /// The termination signal is to be sent.
    Terminate,
    /// The process is to be given time.
    Wait,
    /// The system is to be asked whether the process still runs.
    Check,
    /// The process is to be killed.
    Kill,
    /// The process is at its end.
    Stopped,
    /// The process could not be brought to its end.
    Failed(ProcessError),
}

/// What was done about the end of a process.
#[derive(Debug, PartialEq, Eq)]
pub enum StopEvent {
    /// A signal was sent, or the process was terminated.
    Sent,
    /// That was refused.
    Refused(Refusal),
    /// The time has passed.
    Waited,
    /// The system answered.
    Checked(Probe),
}

/// What is to be done next about the end of a process.
#[derive(Debug, Clone, Copy, PartialEq, Eq, Structural)]
pub enum StopAction {
    SendTerm(i32),
    Sleep(u64),
    Ask(i32),
    SendKill(i32),
    Nothing,
}

/// The first step towards the end of a process. Windows has no signal that asks a process to end.
pub open spec fn first_step(force: bool, platform: Platform) -> StopState {
    if force || platform == Platform::Windows {
        StopState::Kill
    } else {
        StopState::Terminate
    }
}

/// Whether `event` can follow from what is to be done in `state`.
pub open spec fn answers(state: StopState, event: StopEvent) -> bool {
    match state {
        StopState::Terminate | StopState::Kill => event is Sent || event is Refused,
        StopState::Wait => event is Waited,
        StopState::Check => event is Checked,
        StopState::Stopped | StopState::Failed(_) => false,
    }
}

/// The step that follows `state` after `event`.
pub open spec fn next_step(pid: u32, state: StopState, event: StopEvent) -> StopState {
    match (state, event) {
        (StopState::Terminate, StopEvent::Sent) => StopState::Wait,
        (StopState::Terminate, StopEvent::Refused(_)) => StopState::Failed(
            ProcessError::TermRefused,
        ),
        (StopState::Wait, StopEvent::Waited) => StopState::Check,
        (StopState::Check, StopEvent::Checked(probe)) => match running(pid, probe) {
            Ok(true) => StopState::Kill,
            Ok(false) => StopState::Stopped,
            Err(e) => StopState::Failed(e),
        },
        (StopState::Kill, StopEvent::Sent) => StopState::Stopped,
        (StopState::Kill, StopEvent::Refused(by)) => StopState::Failed(
            ProcessError::KillRefused(by, pid),
        ),
        _ => state,
    }
}

/// The end of a process, underway.
#[derive(Debug, PartialEq, Eq)]
pub struct Stop {
    pub pid: u32,
    pub state: StopState,
}

impl Stop {
    /// Begins to bring the process `pid` to its end.
    pub fn begin(pid: u32, force: bool, platform: Platform) -> (r: Self)
        ensures
            r.pid == pid,
            r.state == first_step(force, platform),
            r.state is Kill <==> force || platform == Platform::Windows,
            r.state is Terminate <==> !force && platform == Platform::Unix,
    {
        let windows: bool = match platform {
            Platform::Windows => true,
            Platform::Unix => false,
        };
        if force || windows {
            Stop { pid, state: StopState::Kill }
        } else {
            Stop { pid, state: StopState::Terminate }
        }
    }

    /// What is to be done now.
    pub fn action(&self) -> (r: StopAction)
        ensures
            match self.state {
                StopState::Terminate => r matches StopAction::SendTerm(p) && addresses(p, self.pid),
                StopState::Wait => r == StopAction::Sleep(GRACE_SECONDS) && GRACE_SECONDS == 5,
                StopState::Check => r matches StopAction::Ask(p) && addresses(p, self.pid),
                StopState::Kill => r matches StopAction::SendKill(p) && addresses(p, self.pid),
                StopState::Stopped | StopState::Failed(_) => r == StopAction::Nothing,
            },
    {
        match self.state {
            StopState::Terminate => StopAction::SendTerm(raw_pid(self.pid)),
            StopState::Wait => StopAction::Sleep(GRACE_SECONDS),
            StopState::Check => StopAction::Ask(raw_pid(self.pid)),
            StopState::Kill => StopAction::SendKill(raw_pid(self.pid)),
            StopState::Stopped => StopAction::Nothing,
            StopState::Failed(_) => StopAction::Nothing,
        }
    }

    /// Takes note of what was done.
    pub fn advance(self, event: StopEvent) -> (r: Self)
        ensures
            r.pid == self.pid,
            r.state == next_step(self.pid, self.state, event),
    {
        let pid = self.pid;
        let state = match (self.state, event) {
            (StopState::Terminate, StopEvent::Sent) => StopState::Wait,
            (StopState::Terminate, StopEvent::Refused(_)) => StopState::Failed(
                ProcessError::TermRefused,
            ),
            (StopState::Wait, StopEvent::Waited) => StopState::Check,
            (StopState::Check, StopEvent::Checked(probe)) => match is_process_running(pid, probe) {
                Ok(true) => StopState::Kill,
                Ok(false) => StopState::Stopped,
                Err(e) => StopState::Failed(e),
            },
            (StopState::Kill, StopEvent::Sent) => StopState::Stopped,
            (StopState::Kill, StopEvent::Refused(by)) => StopState::Failed(
                ProcessError::KillRefused(by, pid),
            ),
            (state, _) => state,
        };
        Stop { pid, state }
    }
}

/// `raw` is the signed form of the process number `pid`.
pub open spec fn addresses(raw: i32, pid: u32) -> bool {
    raw == if pid < 0x8000_0000 {
        pid as int
    } else {
        pid - 0x1_0000_0000
    }
}

/// How many steps are at most left.
pub open spec fn steps_left(state: StopState) -> nat {
    match state {
        StopState::Terminate => 4,
        StopState::Wait => 3,
        StopState::Check => 2,
        StopState::Kill => 1,
        StopState::Stopped | StopState::Failed(_) => 0,
    }
}

/// Every answer brings the end of a process closer, so at most four things are done about it.
pub proof fn law_stop_makes_progress(pid: u32, state: StopState, event: StopEvent)
    requires
        answers(state, event),
    ensures
        steps_left(next_step(pid, state, event)) < steps_left(state) <= 4,
{
}

/// A process that was asked to end is killed only if the system said, after the time it was given, that
/// it still runs.
pub proof fn law_kill_only_survivors(pid: u32, state: StopState, event: StopEvent)
    requires
        answers(state, event),
    ensures
        next_step(pid, state, event) is Kill <==> state is Check && (event matches StopEvent::Checked(
            probe,
        ) && running(pid, probe) == Ok::<bool, ProcessError>(true)),
{
}

/// The state that `events` lead to.
pub open spec fn after_events(pid: u32, state: StopState, events: Seq<StopEvent>) -> StopState
    decreases events.len(),
{
    if events.len() == 0 {
        state
    } else {
        next_step(pid, after_events(pid, state, events.drop_last()), events.last())
    }
}

/// Whether each of `events` answers what was to be done when it came.
pub open spec fn all_answer(pid: u32, state: StopState, events: Seq<StopEvent>) -> bool {
    forall|i: int|
        0 <= i < events.len() ==> answers(after_events(pid, state, events.take(i)), #[trigger] events[i])
}

/// A process counts as stopped exactly after one of three courses: it was killed by force; it was asked
/// to end and was gone when the system was asked; or it was asked to end, still ran, and was killed.
pub proof fn law_how_a_process_is_stopped(
    pid: u32,
    force: bool,
    platform: Platform,
    events: Seq<StopEvent>,
)
    requires
        all_answer(pid, first_step(force, platform), events),
    ensures
        ({
            let forced = force || platform == Platform::Windows;
            after_events(pid, first_step(force, platform), events) is Stopped <==> {
                ||| forced && events == seq![StopEvent::Sent]
                ||| !forced && asked_and_checked(events, 3) && running(
                    pid,
                    events[2]->Checked_0,
                ) == Ok::<bool, ProcessError>(false)
                ||| !forced && asked_and_checked(events, 4) && running(
                    pid,
                    events[2]->Checked_0,
                ) == Ok::<bool, ProcessError>(true) && events[3] is Sent
            }
        }),
{
    let first = first_step(force, platform);
    reveal_with_fuel(after_events, 6);
    if events.len() >= 1 {
        assert(answers(after_events(pid, first, events.take(0)), events[0]));
        assert(events.take(1).drop_last() =~= events.take(0));
    }
    if events.len() >= 2 {
        assert(answers(after_events(pid, first, events.take(1)), events[1]));
        assert(events.take(2).drop_last() =~= events.take(1));
    }
    if events.len() >= 3 {
        assert(answers(after_events(pid, first, events.take(2)), events[2]));
        assert(events.take(3).drop_last() =~= events.take(2));
    }
    if events.len() >= 4 {
        assert(answers(after_events(pid, first, events.take(3)), events[3]));
        assert(events.take(4).drop_last() =~= events.take(3));
    }
    if events.len() >= 5 {
        assert(answers(after_events(pid, first, events.take(4)), events[4]));
    }
    assert(events.take(events.len() as int) =~= events);
    if events.len() == 1 && events[0] is Sent {
        assert(events =~= seq![StopEvent::Sent]);
    }
}

/// `events` has `n` events: a signal was sent, time passed and the system answered, and maybe more.
pub open spec fn asked_and_checked(events: Seq<StopEvent>, n: nat) -> bool {
    &&& events.len() == n
    &&& n >= 3
    &&& events[0] is Sent
    &&& events[1] is Waited
    &&& events[2] is Checked
}

/// A process runs if a signal without effect was accepted, or if it has the exit code of one that still
/// runs; it does not if there is no such process, if it cannot be opened, or if it has any other exit code.
/// Where the system could not say, the error says what it did say, or of which process.
pub proof fn law_what_the_system_said(pid: u32, code: u32, reason: String, probe: Probe)
    ensures
        running(pid, probe) == Ok::<bool, ProcessError>(true) <==> probe is Delivered || probe
            == Probe::ExitCode(259),
        running(pid, probe) is Err <==> probe is SignalError || probe is NoExitCode,
        running(pid, Probe::SignalError(reason)) == Err::<bool, ProcessError>(
            ProcessError::CheckFailed(reason),
        ),
        running(pid, Probe::NoExitCode) == Err::<bool, ProcessError>(
            ProcessError::ExitCodeUnknown(pid),
        ),
        code != 259 ==> running(pid, Probe::ExitCode(code)) == Ok::<bool, ProcessError>(false),
{
}

/// Something that was refused brings the end of a process to a failure that names what was refused, and of
/// which process; so does a system that cannot say whether the process runs.
pub proof fn law_refusals_fail(pid: u32, by: Refusal, probe: Probe, e: ProcessError)
    ensures
        next_step(pid, StopState::Terminate, StopEvent::Refused(by)) == StopState::Failed(
            ProcessError::TermRefused,
        ),
        next_step(pid, StopState::Kill, StopEvent::Refused(by)) == StopState::Failed(
            ProcessError::KillRefused(by, pid),
        ),
        running(pid, probe) == Err::<bool, ProcessError>(e) ==> next_step(
            pid,
            StopState::Check,
            StopEvent::Checked(probe),
        ) == StopState::Failed(e),
{
}

/// Only what was to be done moves the end of a process on: anything else leaves it where it is, and so
/// does everything at its end.
pub proof fn law_only_answers_move_an_end(pid: u32, state: StopState, event: StopEvent)
    ensures
        next_step(pid, state, event) != state ==> {
            ||| (state is Terminate || state is Kill) && (event is Sent || event is Refused)
            ||| state is Wait && event is Waited
            ||| state is Check && event is Checked
        },
        state is Stopped || state is Failed ==> next_step(pid, state, event) == state,
        next_step(pid, state, event) is Stopped ==> {
            ||| state is Stopped
            ||| state is Kill && event is Sent
            ||| state is Check && event is Checked && running(pid, event->Checked_0) == Ok::<
                bool,
                ProcessError,
            >(false)
        },
{
}

/// A process that is asked to end is given time, and only after that looked at.
pub proof fn law_time_before_the_check(pid: u32, state: StopState, event: StopEvent)
    ensures
        next_step(pid, StopState::Terminate, StopEvent::Sent) is Wait,
        next_step(pid, StopState::Wait, StopEvent::Waited) is Check,
        next_step(pid, StopState::Kill, StopEvent::Sent) is Stopped,
        next_step(pid, state, event) is Check ==> state is Check || (state is Wait && event is Waited),
        next_step(pid, state, event) is Wait ==> state is Wait || (state is Terminate && event is Sent),
        next_step(pid, state, event) is Terminate ==> state is Terminate,
{
}

/// The signed form of a process number differs from it by nothing or by two to the 32nd, and two numbers
/// with one signed form are the same.
pub proof fn law_signed_form(raw: i32, pid: u32, other: u32)
    requires
        addresses(raw, pid),
    ensures
        raw == pid || raw == pid - 0x1_0000_0000,
        addresses(raw, other) ==> other == pid,
{
}

} // verus!
