//! The servers that were started, and what is known of them.
use crate::registry::{entry_names, insert_entry, lookup, mark_all_stopped, new_table, table_entries};
use crate::clock::Timestamp;
use crate::error::ProcessError;
use crate::launch::{args_view, http_args, http_label, stdio_args, with_extension};
use crate::launch::{Launch, PidFilePath, Transport};
use crate::shutdown::{is_process_running, running, Probe, Stop, StopState};
use crate::text::{decimal, decimal_text, law_decimal_injective, law_decimal_round_trip};
use crate::text::{is_space, law_only_digits_are_read, law_sign_of_a_numeral};
use crate::text::{law_trimming_leaves_the_middle, parse_trimmed, parsed_number, trimmed};
use dashmap::DashMap;
use std::path::PathBuf;
use vstd::prelude::*;

verus! {

/// What a process does.
#[derive(Debug, PartialEq)]
pub enum ProcessStatus {
    Starting,
    Running,
    Stopping,
    Stopped,
    Failed(String),
}

/// What is done after the first of two servers was to be started.
#[derive(Debug, PartialEq, Eq)]
pub enum DualStep {
    /// The first one runs as this process, and the second one is to be started.
    StartSecond(u32, Launch),
    /// The first one was not started, for this reason, and nothing more is done.
    Fail(String),
}

/// What is known of a process.
#[derive(Debug)]
pub struct ProcessInfo {
    pub pid: u32,
    pub transport: String,
    pub config_path: Option<PathBuf>,
    pub start_time: Timestamp,
    pub status: ProcessStatus,
}

impl Clone for ProcessStatus {
    fn clone(&self) -> (r: Self)
        ensures
            r == *self,
    {
        match self {
            ProcessStatus::Starting => ProcessStatus::Starting,
            ProcessStatus::Running => ProcessStatus::Running,
            ProcessStatus::Stopping => ProcessStatus::Stopping,
            ProcessStatus::Stopped => ProcessStatus::Stopped,
            ProcessStatus::Failed(reason) => ProcessStatus::Failed(reason.clone()),
        }
    }
}

impl Clone for ProcessInfo {
    fn clone(&self) -> (r: Self)
        ensures
            r == *self,
    {
        ProcessInfo {
            pid: self.pid,
            transport: self.transport.clone(),
            config_path: match &self.config_path {
                Some(path) => Some(path.clone()),
                None => None,
            },
            start_time: self.start_time,
            status: self.status.clone(),
        }
    }
}

/// `info` with the status of a stopped process if it is about the process `pid`.
pub open spec fn marked_stopped(info: ProcessInfo, pid: u32) -> ProcessInfo {
    if info.pid == pid {
        ProcessInfo { status: ProcessStatus::Stopped, ..info }
    } else {
        info
    }
}

/// Marks a process with the number `pid` as stopped.
pub fn mark_stopped(info: ProcessInfo, pid: u32) -> (r: ProcessInfo)
    ensures
        r == marked_stopped(info, pid),
        r.pid == info.pid,
        r.transport == info.transport,
        r.config_path == info.config_path,
        r.start_time == info.start_time,
        info.pid == pid ==> r.status is Stopped,
        info.pid != pid ==> r == info,
{
    if info.pid == pid {
        ProcessInfo { status: ProcessStatus::Stopped, ..info }
    } else {
        info
    }
}

/// The name under which a server is kept in the table.
pub open spec fn server_name(transport: Transport, pid: nat) -> Seq<char> {
    match transport {
        Transport::Stdio => "stdio_"@ + decimal(pid),
        Transport::Http => "http_"@ + decimal(pid),
    }
}

/// Whether one of the processes runs.
pub open spec fn some_running(entries: Map<Seq<char>, ProcessInfo>) -> bool {
    exists|name: Seq<char>| #[trigger]
        entries.dom().contains(name) && entries[name].status is Running
}

/// Whether one of the processes that run has the number `pid`.
pub open spec fn runs_as(entries: Map<Seq<char>, ProcessInfo>, pid: u32) -> bool {
    exists|name: Seq<char>| #[trigger]
        entries.dom().contains(name) && entries[name].status is Running && entries[name].pid == pid
}

/// Whether one of the processes has the number `pid`.
pub open spec fn known(entries: Map<Seq<char>, ProcessInfo>, pid: u32) -> bool {
    exists|name: Seq<char>| #[trigger] entries.dom().contains(name) && entries[name].pid == pid
}

/// A file that is to hold a process number.
#[derive(Debug, PartialEq, Eq)]
pub struct PidFile {
    pub path: PidFilePath,
    pub text: String,
}

/// The servers that were started, and the files that hold their process numbers.
pub struct ProcessManager {
    processes: DashMap<String, ProcessInfo>,
    pid_files: Vec<PathBuf>,
}

impl Default for ProcessManager {
    fn default() -> (r: Self)
        ensures
            r.entries() == Map::<Seq<char>, ProcessInfo>::empty(),
            r.files() == Seq::<PathBuf>::empty(),
    {
        ProcessManager::new()
    }
}

impl ProcessManager {
    /// What is known of each process, by name.
    pub closed spec fn entries(&self) -> Map<Seq<char>, ProcessInfo> {
        table_entries(self.processes)
    }

    /// The files that were written to hold process numbers, the oldest first.
    pub closed spec fn files(&self) -> Seq<PathBuf> {
        self.pid_files@
    }

    /// A manager that knows of nothing.
    pub fn new() -> (r: Self)
        ensures
            r.entries() == Map::<Seq<char>, ProcessInfo>::empty(),
            r.files() == Seq::<PathBuf>::empty(),
    {
        let processes = new_table();
        assert(table_entries(processes) =~= Map::<Seq<char>, ProcessInfo>::empty());
        ProcessManager { processes, pid_files: Vec::new() }
    }

    /// How a server that talks over its standard streams is started.
    pub fn start_stdio_server(
        config: Option<PathBuf>,
        daemon: bool,
        pid_file: Option<PathBuf>,
        buffer_size: usize,
    ) -> (r: Launch)
        ensures
            r.transport == Transport::Stdio,
            r.label@ == "stdio"@,
            args_view(r.args@) == stdio_args(config, buffer_size as nat),
            r.detached == daemon,
            r.config_path == config,
            r.pid_file == exact_path(pid_file),
            pid_file matches Some(p) ==> r.pid_file == Some(PidFilePath::At(p)),
            pid_file is None ==> r.pid_file is None,
    {
        Launch::stdio(config, daemon, at_path(pid_file), buffer_size)
    }

    /// How a server that talks over HTTP is started.
    pub fn start_http_server(
        host: &str,
        port: u16,
        config: Option<PathBuf>,
        daemon: bool,
        pid_file: Option<PathBuf>,
        tls: bool,
        cert: Option<PathBuf>,
        key: Option<PathBuf>,
    ) -> (r: Launch)
        ensures
            r.transport == Transport::Http,
            r.label@ == http_label(host@, port as nat),
            args_view(r.args@) == http_args(host@, port as nat, config, tls, cert, key),
            r.detached == daemon,
            r.config_path == config,
            r.pid_file == exact_path(pid_file),
            pid_file matches Some(p) ==> r.pid_file == Some(PidFilePath::At(p)),
            pid_file is None ==> r.pid_file is None,
    {
        Launch::http(host, port, config, daemon, at_path(pid_file), tls, cert, key)
    }

    /// How a server for each transport is started; `after_first` says when the second one is.
    pub fn start_dual_transport(
        host: &str,
        port: u16,
        buffer_size: usize,
        config: Option<PathBuf>,
        daemon: bool,
        pid_file: Option<PathBuf>,
    ) -> (r: (Launch, Launch))
        ensures
            r.0.transport == Transport::Stdio,
            r.0.label@ == "stdio"@,
            args_view(r.0.args@) == stdio_args(config, buffer_size as nat),
            r.0.detached == daemon,
            r.0.config_path == config,
            with_extension(r.0.pid_file, pid_file, "stdio.pid"@),
            pid_file matches Some(p) ==> r.0.pid_file matches Some(PidFilePath::WithExtension(q, e))
                && q == p && e@ == "stdio.pid"@,
            pid_file is None ==> r.0.pid_file is None,
            r.1.transport == Transport::Http,
            r.1.label@ == http_label(host@, port as nat),
            args_view(r.1.args@) == http_args(host@, port as nat, config, false, None, None),
            r.1.detached == daemon,
            r.1.config_path == config,
            with_extension(r.1.pid_file, pid_file, "http.pid"@),
            pid_file matches Some(p) ==> r.1.pid_file matches Some(PidFilePath::WithExtension(q, e))
                && q == p && e@ == "http.pid"@,
            pid_file is None ==> r.1.pid_file is None,
    {
        Launch::dual(host, port, buffer_size, config, daemon, pid_file)
    }

    /// What is done after the first of two servers was started, or was not: the second one is started
    /// only after the first one was.
    pub fn after_first(first: Result<u32, String>, second: Launch) -> (r: DualStep)
        ensures
            r == match first {
                Ok(pid) => DualStep::StartSecond(pid, second),
                Err(reason) => DualStep::Fail(reason),
            },
    {
        match first {
            Ok(pid) => DualStep::StartSecond(pid, second),
            Err(reason) => DualStep::Fail(reason),
        }
    }

    /// Takes note that the server of `launch` was started as the process `pid`, and says which file is to
    /// hold that number.
    pub fn started(&mut self, launch: Launch, pid: u32, now: Timestamp) -> (r: Option<PidFile>)
        ensures
            final(self).entries() == old(self).entries().insert(
                server_name(launch.transport, pid as nat),
                ProcessInfo {
                    pid,
                    transport: launch.label,
                    config_path: launch.config_path,
                    start_time: now,
                    status: ProcessStatus::Running,
                },
            ),
            final(self).files() == recorded_after(old(self).files(), ManagerStep::Start),
            final(self).files() == old(self).files(),
            match launch.pid_file {
                Some(path) => r matches Some(f) && f.path == path && f.text@ == decimal(pid as nat),
                None => r is None,
            },
    {
        let number = decimal_text(pid as u64);
        let name = match launch.transport {
            Transport::Stdio => String::from_str("stdio_").concat(number.as_str()),
            Transport::Http => String::from_str("http_").concat(number.as_str()),
        };
        let info = ProcessInfo {
            pid,
            transport: launch.label,
            config_path: launch.config_path,
            start_time: now,
            status: ProcessStatus::Running,
        };
        insert_entry(&mut self.processes, name, info);
        match launch.pid_file {
            Some(path) => Some(PidFile { path, text: number }),
            None => None,
        }
    }

    /// Takes note that a file was written to hold a process number.
    pub fn write_pid_file(&mut self, path: PathBuf)
        ensures
            final(self).files() == recorded_after(old(self).files(), ManagerStep::Record(path)),
            final(self).files() == old(self).files().push(path),
            final(self).entries() == old(self).entries(),
    {
        self.pid_files.push(path);
    }

    /// The process number in the text of a PID file.
    pub fn read_pid_file(content: &str) -> (r: Result<u32, ProcessError>)
        ensures
            match parsed_number(trimmed(content@), u32::MAX as nat) {
                Some(pid) => r matches Ok(n) && n == pid,
                None => r == Err::<u32, ProcessError>(ProcessError::InvalidPid),
            },
    {
        match parse_trimmed(content, u32::MAX as u64) {
            Some(pid) => Ok(pid as u32),
            None => Err(ProcessError::InvalidPid),
        }
    }

    /// The number of a process that runs. Where several run, it is one of theirs.
    pub fn find_running_server_pid(&self) -> (r: Result<u32, ProcessError>)
        ensures
            match r {
                Ok(pid) => runs_as(self.entries(), pid),
                Err(e) => e == ProcessError::NoRunningServer && !some_running(self.entries()),
            },
    {
        let names = entry_names(&self.processes);
        let n: usize = names.len();
        let mut i: usize = 0;
        while i < n
            invariant
                i <= n == names@.len(),
                forall|j: int|
                    0 <= j < n ==> self.entries().dom().contains(#[trigger] names@[j]@),
                forall|j: int|
                    0 <= j < i ==> !(self.entries()[#[trigger] names@[j]@].status is Running),
            decreases n - i,
        {
            match lookup(&self.processes, &names[i]) {
                Some(info) => match info.status {
                    ProcessStatus::Running => {
                        assert(self.entries().dom().contains(names@[i as int]@));
                        return Ok(info.pid);
                    },
                    _ => {},
                },
                None => {},
            }
            i = i + 1;
        }
        Err(ProcessError::NoRunningServer)
    }

    /// The number of the process that is meant: the one in the text of a PID file, or without a file that of
    /// a process that runs.
    pub fn target_pid(&self, pid_file: Option<&str>) -> (r: Result<u32, ProcessError>)
        ensures
            match pid_file {
                Some(content) => match parsed_number(trimmed(content@), u32::MAX as nat) {
                    Some(pid) => r matches Ok(n) && n == pid,
                    None => r == Err::<u32, ProcessError>(ProcessError::InvalidPid),
                },
                None => match r {
                    Ok(pid) => runs_as(self.entries(), pid),
                    Err(e) => e == ProcessError::NoRunningServer && !some_running(self.entries()),
                },
            },
    {
        match pid_file {
            Some(content) => Self::read_pid_file(content),
            None => self.find_running_server_pid(),
        }
    }

    /// Takes note that the process `pid` was brought to its end.
    pub fn stop_server(&mut self, pid: u32)
        ensures
            final(self).entries() == old(self).entries().map_values(
                |info: ProcessInfo| marked_stopped(info, pid),
            ),
            final(self).files() == recorded_after(old(self).files(), ManagerStep::Stop),
            final(self).files() == old(self).files(),
    {
        mark_all_stopped(&mut self.processes, pid);
    }

    /// Takes note of how the end of a process came out: one that was stopped is marked so, and one that
    /// was not is left as it was.
    pub fn finish_stop(&mut self, stop: Stop) -> (r: Result<(), ProcessError>)
        requires
            stop.state is Stopped || stop.state is Failed,
        ensures
            match stop.state {
                StopState::Failed(e) => {
                    &&& r == Err::<(), ProcessError>(e)
                    &&& final(self).entries() == old(self).entries()
                },
                _ => {
                    &&& r is Ok
                    &&& final(self).entries() == old(self).entries().map_values(
                        |info: ProcessInfo| marked_stopped(info, stop.pid),
                    )
                },
            },
            final(self).files() == recorded_after(old(self).files(), ManagerStep::Stop),
            final(self).files() == old(self).files(),
    {
        match stop.state {
            StopState::Failed(e) => Err(e),
            _ => {
                self.stop_server(stop.pid);
                Ok(())
            },
        }
    }

    /// What is known of the process `pid`, if the system says that it runs. Where several entries are about
    /// it, it is one of them.
    pub fn get_status(&self, pid: u32, probe: Probe) -> (r: Result<ProcessInfo, ProcessError>)
        ensures
            match running(pid, probe) {
                Err(e) => r == Err::<ProcessInfo, ProcessError>(e),
                Ok(false) => r == Err::<ProcessInfo, ProcessError>(ProcessError::NotRunning),
                Ok(true) => match r {
                    Ok(info) => info.pid == pid && exists|name: Seq<char>| #[trigger]
                        self.entries().dom().contains(name) && self.entries()[name] == info,
                    Err(e) => e == ProcessError::InfoNotFound && !known(self.entries(), pid),
                },
            },
    {
        match is_process_running(pid, probe) {
            Err(e) => return Err(e),
            Ok(runs) => if !runs {
                return Err(ProcessError::NotRunning);
            },
        }
        let names = entry_names(&self.processes);
        let n: usize = names.len();
        let mut i: usize = 0;
        while i < n
            invariant
                i <= n == names@.len(),
                running(pid, probe) == Ok::<bool, ProcessError>(true),
                forall|j: int|
                    0 <= j < n ==> self.entries().dom().contains(#[trigger] names@[j]@),
                forall|j: int|
                    0 <= j < i ==> self.entries()[#[trigger] names@[j]@].pid != pid,
            decreases n - i,
        {
            match lookup(&self.processes, &names[i]) {
                Some(info) => if info.pid == pid {
                    assert(self.entries().dom().contains(names@[i as int]@));
                    return Ok(info);
                },
                None => {},
            }
            i = i + 1;
        }
        Err(ProcessError::InfoNotFound)
    }

    /// The files that are to be removed, if they still exist.
    pub fn cleanup(&self) -> (r: &Vec<PathBuf>)
        ensures
            r@ == self.files(),
    {
        &self.pid_files
    }
}

/// The place of a PID file that is exactly `path`.
pub open spec fn exact_path(path: Option<PathBuf>) -> Option<PidFilePath> {
    match path {
        Some(p) => Some(PidFilePath::At(p)),
        None => None,
    }
}

fn at_path(path: Option<PathBuf>) -> (r: Option<PidFilePath>)
    ensures
        r == exact_path(path),
{
    match path {
        Some(p) => Some(PidFilePath::At(p)),
        None => None,
    }
}

/// The text that is written for a process number is read back as that number.
pub proof fn law_pid_file_round_trip(pid: u32)
    ensures
        parsed_number(trimmed(decimal(pid as nat)), u32::MAX as nat) == Some(pid as nat),
{
    law_decimal_round_trip(pid as nat, u32::MAX as nat);
}

/// Servers of different transports or with different process numbers have different names, so none
/// takes the place of another in the table.
pub proof fn law_names_are_distinct(t1: Transport, p1: u32, t2: Transport, p2: u32)
    requires
        server_name(t1, p1 as nat) == server_name(t2, p2 as nat),
    ensures
        t1 == t2,
        p1 == p2,
{
    reveal_strlit("stdio_");
    reveal_strlit("http_");
    let n1 = server_name(t1, p1 as nat);
    let n2 = server_name(t2, p2 as nat);
    assert(n1[0] == n2[0]);
    let k: int = if t1 == Transport::Stdio {
        6
    } else {
        5
    };
    assert(n1.skip(k) =~= decimal(p1 as nat));
    assert(n2.skip(k) =~= decimal(p2 as nat));
    law_decimal_injective(p1 as nat, p2 as nat);
}

/// After a server was started, a process is found that runs.
pub proof fn law_started_server_runs(
    entries: Map<Seq<char>, ProcessInfo>,
    name: Seq<char>,
    info: ProcessInfo,
)
    requires
        info.status is Running,
    ensures
        runs_as(entries.insert(name, info), info.pid),
        some_running(entries.insert(name, info)),
        known(entries.insert(name, info), info.pid),
{
    assert(entries.insert(name, info).dom().contains(name));
}

/// After a process was brought to its end, none that has its number runs, its entries are still there,
/// and no entry about another process has changed.
pub proof fn law_stopped_server_does_not_run(entries: Map<Seq<char>, ProcessInfo>, pid: u32)
    ensures
        ({
            let after = entries.map_values(|info: ProcessInfo| marked_stopped(info, pid));
            &&& !runs_as(after, pid)
            &&& after.dom() == entries.dom()
            &&& forall|name: Seq<char>| #[trigger]
                entries.dom().contains(name) ==> {
                    &&& after[name].pid == entries[name].pid
                    &&& after[name].transport == entries[name].transport
                    &&& after[name].config_path == entries[name].config_path
                    &&& after[name].start_time == entries[name].start_time
                    &&& entries[name].pid != pid ==> after[name] == entries[name]
                    &&& entries[name].pid == pid ==> after[name].status is Stopped
                }
        }),
{
    let after = entries.map_values(|info: ProcessInfo| marked_stopped(info, pid));
    assert(after.dom() =~= entries.dom());
}

/// Whether every entry has the name that its process number and a transport give it.
pub open spec fn well_named(entries: Map<Seq<char>, ProcessInfo>) -> bool {
    forall|name: Seq<char>| #[trigger]
        entries.dom().contains(name) ==> name == server_name(
            Transport::Stdio,
            entries[name].pid as nat,
        ) || name == server_name(Transport::Http, entries[name].pid as nat)
}

/// Whatever is done to a table, every entry has the name that its process number and a transport give
/// it: that is so of an empty table, and stays so when a server is started or stopped.
pub proof fn law_entries_keep_their_names(
    entries: Map<Seq<char>, ProcessInfo>,
    transport: Transport,
    info: ProcessInfo,
    pid: u32,
)
    requires
        well_named(entries),
    ensures
        well_named(Map::empty()),
        well_named(entries.insert(server_name(transport, info.pid as nat), info)),
        well_named(entries.map_values(|info: ProcessInfo| marked_stopped(info, pid))),
{
}

/// Something that is done with a manager of processes.
pub ghost enum ManagerStep {
    /// A server was started.
    Start,
    /// A file was written to hold a process number.
    Record(PathBuf),
    /// A process was brought to its end.
    Stop,
    /// The recorded files were handed out.
    CleanUp,
}

/// What `step` makes of the recorded files: only recording one changes them.
pub open spec fn recorded_after(files: Seq<PathBuf>, step: ManagerStep) -> Seq<PathBuf> {
    match step {
        ManagerStep::Record(path) => files.push(path),
        _ => files,
    }
}

/// The files that were recorded, in order.
pub open spec fn recorded(steps: Seq<ManagerStep>) -> Seq<PathBuf>
    decreases steps.len(),
{
    if steps.len() == 0 {
        Seq::empty()
    } else {
        recorded_after(recorded(steps.drop_last()), steps.last())
    }
}

/// Whatever is done with a manager that had recorded no file at first, its files are exactly those that
/// were recorded, in order.
pub proof fn law_files_are_the_recorded_ones(files: Seq<Seq<PathBuf>>, steps: Seq<ManagerStep>)
    requires
        files.len() == steps.len() + 1,
        files[0] == Seq::<PathBuf>::empty(),
        forall|i: int|
            #![trigger steps[i]]
            0 <= i < steps.len() ==> files[i + 1] == recorded_after(files[i], steps[i]),
    ensures
        files.last() == recorded(steps),
    decreases steps.len(),
{
    if steps.len() > 0 {
        let earlier = steps.drop_last();
        assert forall|i: int| #![trigger earlier[i]] 0 <= i < earlier.len() implies files.drop_last()[i
            + 1] == recorded_after(files.drop_last()[i], earlier[i]) by {
            assert(files[i + 1] == recorded_after(files[i], steps[i]));
        }
        law_files_are_the_recorded_ones(files.drop_last(), earlier);
        assert(files[steps.len() as int] == recorded_after(
            files[steps.len() - 1],
            steps[steps.len() - 1],
        ));
    }
}

/// The files that are left of those on the disk when each of `files` that is there is removed.
pub open spec fn left_after_cleanup(disk: Set<PathBuf>, files: Seq<PathBuf>) -> Set<PathBuf> {
    disk.difference(files.to_set())
}

/// Removing the files that a manager hands out leaves none of them and touches no other; one that is
/// missing already does not matter, and doing it once more changes nothing.
pub proof fn law_cleanup(disk: Set<PathBuf>, files: Seq<PathBuf>)
    ensures
        forall|path: PathBuf| #[trigger]
            files.contains(path) ==> !left_after_cleanup(disk, files).contains(path),
        forall|path: PathBuf|
            !files.contains(path) ==> #[trigger] left_after_cleanup(disk, files).contains(path)
                == disk.contains(path),
        left_after_cleanup(left_after_cleanup(disk, files), files) == left_after_cleanup(disk, files),
{
    assert(left_after_cleanup(left_after_cleanup(disk, files), files) =~= left_after_cleanup(
        disk,
        files,
    ));
}

/// The name of a server is its transport, an underscore and its process number.
pub proof fn law_name_tells_transport_and_number(pid: nat)
    ensures
        server_name(Transport::Stdio, pid).take(6) == "stdio_"@,
        server_name(Transport::Stdio, pid).skip(6) == decimal(pid),
        server_name(Transport::Http, pid).take(5) == "http_"@,
        server_name(Transport::Http, pid).skip(5) == decimal(pid),
{
    reveal_strlit("stdio_");
    reveal_strlit("http_");
    assert(server_name(Transport::Stdio, pid).take(6) =~= "stdio_"@);
    assert(server_name(Transport::Stdio, pid).skip(6) =~= decimal(pid));
    assert(server_name(Transport::Http, pid).take(5) =~= "http_"@);
    assert(server_name(Transport::Http, pid).skip(5) =~= decimal(pid));
}

/// A process counts as running only where an entry says so of just that number, and as known only where
/// an entry has its number; and any entry that says so is enough.
pub proof fn law_what_counts_as_running(
    entries: Map<Seq<char>, ProcessInfo>,
    pid: u32,
    name: Seq<char>,
)
    ensures
        runs_as(entries, pid) ==> exists|n: Seq<char>| #[trigger]
            entries.dom().contains(n) && entries[n].pid == pid && entries[n].status
                == ProcessStatus::Running,
        some_running(entries) <==> exists|p: u32| #[trigger] runs_as(entries, p),
        runs_as(entries, pid) ==> known(entries, pid),
        entries.dom().contains(name) && entries[name].status == ProcessStatus::Running ==> runs_as(
            entries,
            entries[name].pid,
        ),
        entries.dom().contains(name) ==> known(entries, entries[name].pid),
        known(entries, pid) ==> exists|n: Seq<char>| #[trigger]
            entries.dom().contains(n) && entries[n].pid == pid,
{
    if some_running(entries) {
        let n = choose|n: Seq<char>| #[trigger]
            entries.dom().contains(n) && entries[n].status is Running;
        assert(runs_as(entries, entries[n].pid));
    }
    if exists|p: u32| #[trigger] runs_as(entries, p) {
        let p = choose|p: u32| #[trigger] runs_as(entries, p);
        let n = choose|n: Seq<char>| #[trigger]
            entries.dom().contains(n) && entries[n].status is Running && entries[n].pid == p;
        assert(entries.dom().contains(n));
    }
}

/// A PID file is read as a number whatever white space stands around the numeral.
pub proof fn law_pid_file_may_have_space(front: Seq<char>, pid: u32, back: Seq<char>)
    requires
        forall|i: int| 0 <= i < front.len() ==> is_space(#[trigger] front[i]),
        forall|i: int| 0 <= i < back.len() ==> is_space(#[trigger] back[i]),
    ensures
        parsed_number(trimmed(front + decimal(pid as nat) + back), u32::MAX as nat) == Some(pid as nat),
{
    let n = decimal(pid as nat);
    law_decimal_round_trip(pid as nat, u32::MAX as nat);
    law_only_digits_are_read(n, u32::MAX as nat);
    law_sign_of_a_numeral(pid as nat);
    assert(!is_space(n[0]) && !is_space(n[n.len() - 1]));
    law_trimming_leaves_the_middle(front + n + back, front, n, back);
}

/// The files that were recorded are exactly those of the steps that recorded one: doing anything else
/// adds none, and each one that is recorded comes last.
pub proof fn law_recording_adds_one_file(steps: Seq<ManagerStep>, path: PathBuf)
    ensures
        recorded(Seq::empty()) == Seq::<PathBuf>::empty(),
        recorded(steps.push(ManagerStep::Record(path))) == recorded(steps).push(path),
        recorded(steps.push(ManagerStep::Start)) == recorded(steps),
        recorded(steps.push(ManagerStep::Stop)) == recorded(steps),
        recorded(steps.push(ManagerStep::CleanUp)) == recorded(steps),
{
    assert(steps.push(ManagerStep::Record(path)).drop_last() =~= steps);
    assert(steps.push(ManagerStep::Start).drop_last() =~= steps);
    assert(steps.push(ManagerStep::Stop).drop_last() =~= steps);
    assert(steps.push(ManagerStep::CleanUp).drop_last() =~= steps);
}

} // verus!
