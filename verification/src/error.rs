//! Errors of the memory-mapped data structures, of the vector operations and of process control.
use crate::text::{decimal, decimal_text};
use vstd::prelude::*;

verus! {

/// What can go wrong in an access to mapped memory.
#[derive(Debug, PartialEq, Eq)]
pub enum ZeroCopyError {
    /// A range or an amount of bytes does not fit the mapping.
    Buffer(String),
    /// Archived data in the mapping cannot be read.
    ArchiveAccess(String),
}

/// What can go wrong in an operation on vectors.
#[derive(Debug, PartialEq, Eq)]
pub enum VectorError {
    /// Two vectors that must have one length have these two.
    DimensionMismatch(usize, usize),
    /// The result buffer of a batch does not have one place for each vector.
    BatchSizeMismatch,
    /// The vector instructions are not there.
    SimdError(String),
}

/// Which call refused to end a process.
#[derive(Debug, Clone, Copy, PartialEq, Eq, Structural)]
pub enum Refusal {
    /// The kill signal could not be sent.
    Signal,
    /// The process could not be opened.
    OpenProcess,
    /// The process could not be terminated.
    TerminateProcess,
}

/// What can go wrong in the control of processes.
#[derive(Debug, PartialEq, Eq)]
pub enum ProcessError {
    /// A PID file does not hold a process number.
    InvalidPid,
    /// No process is known to run.
    NoRunningServer,
    /// The process that was asked for does not run.
    NotRunning,
    /// Nothing is known of the process that was asked for.
    InfoNotFound,
    /// The system could not say whether a process runs, for this reason.
    CheckFailed(String),
    /// The system did not give the exit code of this process.
    ExitCodeUnknown(u32),
    /// The termination signal could not be sent.
    TermRefused,
    /// This process could not be killed.
    KillRefused(Refusal, u32),
}

/// The message of an error.
pub open spec fn process_message(e: ProcessError) -> Seq<char> {
    match e {
        ProcessError::InvalidPid => "Invalid PID in file"@,
        ProcessError::NoRunningServer => "No running server found"@,
        ProcessError::NotRunning => "Server is not running"@,
        ProcessError::InfoNotFound => "Process information not found"@,
        ProcessError::CheckFailed(reason) => "Failed to check process: "@ + reason@,
        ProcessError::ExitCodeUnknown(pid) => "GetExitCodeProcess failed for pid "@ + decimal(
            pid as nat,
        ),
        ProcessError::TermRefused => "Failed to send SIGTERM"@,
        ProcessError::KillRefused(Refusal::Signal, _) => "Failed to send SIGKILL"@,
        ProcessError::KillRefused(Refusal::OpenProcess, pid) => "OpenProcess("@ + decimal(pid as nat)
            + ") failed"@,
        ProcessError::KillRefused(Refusal::TerminateProcess, pid) => "TerminateProcess("@ + decimal(
            pid as nat,
        ) + ") failed"@,
    }
}

impl ProcessError {
    /// The message of the error.
    pub fn message(&self) -> (r: String)
        ensures
            r@ == process_message(*self),
    {
        match self {
            ProcessError::InvalidPid => String::from_str("Invalid PID in file"),
            ProcessError::NoRunningServer => String::from_str("No running server found"),
            ProcessError::NotRunning => String::from_str("Server is not running"),
            ProcessError::InfoNotFound => String::from_str("Process information not found"),
            ProcessError::CheckFailed(reason) => String::from_str("Failed to check process: ").concat(
                reason.as_str(),
            ),
            ProcessError::ExitCodeUnknown(pid) => String::from_str(
                "GetExitCodeProcess failed for pid ",
            ).concat(decimal_text(*pid as u64).as_str()),
            ProcessError::TermRefused => String::from_str("Failed to send SIGTERM"),
            ProcessError::KillRefused(Refusal::Signal, _) => String::from_str("Failed to send SIGKILL"),
            ProcessError::KillRefused(Refusal::OpenProcess, pid) => String::from_str(
                "OpenProcess(",
            ).concat(decimal_text(*pid as u64).as_str()).concat(") failed"),
            ProcessError::KillRefused(Refusal::TerminateProcess, pid) => String::from_str(
                "TerminateProcess(",
            ).concat(decimal_text(*pid as u64).as_str()).concat(") failed"),
        }
    }
}

/// The message of an error ends with the reason that was given, or has the number of the process in it.
pub proof fn law_message_gives_reason_or_number(reason: String, pid: u32)
    ensures
        process_message(ProcessError::CheckFailed(reason)).len() == 25 + reason@.len(),
        process_message(ProcessError::CheckFailed(reason)).skip(25) == reason@,
        process_message(ProcessError::ExitCodeUnknown(pid)).skip(34) == decimal(pid as nat),
        process_message(ProcessError::KillRefused(Refusal::OpenProcess, pid)).subrange(
            12,
            12 + decimal(pid as nat).len() as int,
        ) == decimal(pid as nat),
        process_message(ProcessError::KillRefused(Refusal::OpenProcess, pid)).len() == 20 + decimal(
            pid as nat,
        ).len(),
        process_message(ProcessError::KillRefused(Refusal::TerminateProcess, pid)).subrange(
            17,
            17 + decimal(pid as nat).len() as int,
        ) == decimal(pid as nat),
        process_message(ProcessError::KillRefused(Refusal::TerminateProcess, pid)).len() == 25
            + decimal(pid as nat).len(),
        process_message(ProcessError::KillRefused(Refusal::Signal, pid)) == "Failed to send SIGKILL"@,
{
    reveal_strlit("Failed to check process: ");
    reveal_strlit("GetExitCodeProcess failed for pid ");
    reveal_strlit("OpenProcess(");
    reveal_strlit("TerminateProcess(");
    reveal_strlit(") failed");
    let n = decimal(pid as nat);
    assert(process_message(ProcessError::CheckFailed(reason)).skip(25) =~= reason@);
    assert(process_message(ProcessError::ExitCodeUnknown(pid)).skip(34) =~= n);
    assert(process_message(ProcessError::KillRefused(Refusal::OpenProcess, pid)).subrange(
        12,
        12 + n.len() as int,
    ) =~= n);
    assert(process_message(ProcessError::KillRefused(Refusal::TerminateProcess, pid)).subrange(
        17,
        17 + n.len() as int,
    ) =~= n);
}

} // verus!
