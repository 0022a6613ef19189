//! What is asked of whoever performs a start, and what comes back.
//!
//! Nothing here touches the machine. A request names one thing to be done or
//! looked up, with everything that is handed to it; a reply carries what came
//! of it.

pub mod laws;

use super::command::{Environment, ProcessCommand, ProjectPath};
use super::observed::{Health, HostObserved, HostStatus};
use super::registry::RunningProcess;
use super::settings::{HealthPolicy, Probed, Toolchain};
use crate::lifecycle::Conflict;
use crate::orchestration::{Act, Action, ProcessState};
use crate::ordered::TextMap;
use crate::records::{PortRecord, ProcessRecord, ProjectStatus, RuntimeRecord};
use crate::text::{copied, same};
use vstd::prelude::*;

verus! {

/// One thing to be done or looked up.
#[derive(Debug)]
pub enum Request {
    ListProcesses { project_id: String },
    FindRuntime { project_id: String },
    /// The executables that would do for a runtime.
    ListCandidates { runtime: String },
    /// Look for a runtime's toolchain on this machine.
    Probe { runtime: String },
    /// Take the project's processes out of the registry.
    TakeRegistered { project_id: String },
    /// The handle of one named process in the registry.
    FindHandle { project_id: String, process: String },
    /// Ask a process to stop, and wait out the grace period.
    Stop { handle: u64 },
    CheckPort { project_id: String },
    ResolveEnvironment { project_id: String },
    ListPorts { project_id: String },
    /// Make a command out of a row's text.
    BuildCommand {
        runtime: String,
        text: String,
        directory: ProjectPath,
        toolchain: Toolchain,
        port: Option<u16>,
        env: TextMap<String>,
    },
    /// Write what the project is doing while it starts.
    Announce { project_id: String, status: ProjectStatus },
    /// Run a command to completion.
    RunStep { phase: &'static str, command: ProcessCommand },
    /// Write a process's status, with the pid and the exit code its supervisor
    /// has.
    RecordStatus {
        process_id: String,
        state: ProcessState,
        reason: Option<String>,
        handle: Option<u64>,
    },
    /// Where this application's own executable is.
    FindExecutable,
    Spawn { command: ProcessCommand, health: Option<HealthPolicy>, restart_on_crash: bool },
    Register { project_id: String, running: Vec<RunningProcess> },
    ReplaceHandle { project_id: String, process: String, handle: u64 },
    Observe { handle: u64 },
    /// What the process's health check says, whether it still runs, and how
    /// long it has been waited for.
    Poll { handle: u64 },
    Sleep { ms: u64 },
    RecordStarted { project_id: String },
    /// What each of the handles reports, in their order.
    ObserveAll { handles: Vec<u64> },
    /// Write a process's status from what its supervisor reports.
    RecordObserved {
        process_id: String,
        state: ProcessState,
        /// The supervisor whose pid is written with the status.
        handle: u64,
        exit_code: Option<i64>,
        reason: Option<String>,
    },
    CountRestart { process_id: String },
    /// Nothing is left to do.
    Nothing,
}

/// What came of a request.
#[derive(Debug)]
pub enum Reply {
    Processes(Result<Vec<ProcessRecord>, String>),
    Runtime(Result<Option<RuntimeRecord>, String>),
    Candidates(Vec<String>),
    Probed(Probed),
    Registered(Vec<RunningProcess>),
    Handle(Option<u64>),
    /// It was done, or could not be and nothing depends on it.
    Done,
    Stopped(Result<(), String>),
    Port(Result<(), Conflict>),
    Environment(Result<Environment, String>),
    Ports(Result<Vec<PortRecord>, String>),
    Command(Result<ProcessCommand, String>),
    Stepped(Result<(), String>),
    Executable(Result<String, String>),
    Spawned(Result<u64, String>),
    Replaced(bool),
    Observed(HostObserved),
    Polled { health: Health, status: HostStatus, waited_ms: u64 },
    Recorded(Result<(), String>),
    Observations(Vec<HostObserved>),
}

/// A request as a mathematical value.
pub enum Ask {
    ListProcesses(Seq<char>),
    FindRuntime(Seq<char>),
    ListCandidates(Seq<char>),
    Probe(Seq<char>),
    TakeRegistered(Seq<char>),
    FindHandle(Seq<char>, Seq<char>),
    Stop(u64),
    CheckPort(Seq<char>),
    ResolveEnvironment(Seq<char>),
    ListPorts(Seq<char>),
    BuildCommand {
        runtime: Seq<char>,
        text: Seq<char>,
        directory: super::command::Place,
        toolchain: Toolchain,
        port: Option<u16>,
        env: Seq<(Seq<char>, Seq<char>)>,
    },
    Announce(Seq<char>, ProjectStatus),
    RunStep(Seq<char>, super::command::Launch),
    Record(Deed),
    FindExecutable,
    Spawn { command: super::command::Launch, health: Option<Asking>, restart_on_crash: bool },
    Register(Seq<char>, Seq<RunningProcess>),
    ReplaceHandle(Seq<char>, Seq<char>, u64),
    Observe(u64),
    Poll(u64),
    Sleep(u64),
    RecordStarted(Seq<char>),
    ObserveAll(Seq<u64>),
    RecordObserved {
        process_id: Seq<char>,
        state: ProcessState,
        handle: u64,
        exit_code: Option<i64>,
        reason: Option<Seq<char>>,
    },
    CountRestart(Seq<char>),
    Nothing,
}

/// A health policy as a mathematical value.
pub struct Asking {
    pub kind: Seq<char>,
    pub target: Option<Seq<char>>,
    pub timeout_s: i64,
    pub port: Option<u16>,
    pub interval_s: int,
    pub start_period_s: int,
}

/// The health policy of a process, if its row configures a check.
pub open spec fn asked_of(process: ProcessRecord, port: Option<u16>) -> Option<Asking> {
    if process.checked() {
        Some(
            Asking {
                kind: process.health_check_type@,
                target: crate::text::optional(process.health_check_target),
                timeout_s: process.health_timeout_s,
                port,
                interval_s: super::settings::within(process.health_interval_s, 1, 3600),
                start_period_s: super::settings::within(process.health_start_period_s, 0, 3600),
            },
        )
    } else {
        None
    }
}

/// What a health policy asks.
pub open spec fn asking(policy: Option<HealthPolicy>) -> Option<Asking> {
    match policy {
        Some(policy) => Some(
            Asking {
                kind: policy.check.kind@,
                target: crate::text::optional(policy.check.target),
                timeout_s: policy.check.timeout_s,
                port: policy.check.port,
                interval_s: policy.interval_s as int,
                start_period_s: policy.start_period_s as int,
            },
        ),
        None => None,
    }
}

impl View for Request {
    type V = Ask;

    open spec fn view(&self) -> Ask {
        match self {
            Request::ListProcesses { project_id } => Ask::ListProcesses(project_id@),
            Request::FindRuntime { project_id } => Ask::FindRuntime(project_id@),
            Request::ListCandidates { runtime } => Ask::ListCandidates(runtime@),
            Request::Probe { runtime } => Ask::Probe(runtime@),
            Request::TakeRegistered { project_id } => Ask::TakeRegistered(project_id@),
            Request::FindHandle { project_id, process } => Ask::FindHandle(project_id@, process@),
            Request::Stop { handle } => Ask::Stop(*handle),
            Request::CheckPort { project_id } => Ask::CheckPort(project_id@),
            Request::ResolveEnvironment { project_id } => Ask::ResolveEnvironment(project_id@),
            Request::ListPorts { project_id } => Ask::ListPorts(project_id@),
            Request::BuildCommand { runtime, text, directory, toolchain, port, env } => {
                Ask::BuildCommand {
                    runtime: runtime@,
                    text: text@,
                    directory: directory@,
                    toolchain: *toolchain,
                    port: *port,
                    env: crate::ordered::settings(env@),
                }
            },
            Request::Announce { project_id, status } => Ask::Announce(project_id@, *status),
            Request::RunStep { phase, command } => Ask::RunStep(phase@, command@),
            Request::RecordStatus { process_id, state, reason, handle } => Ask::Record(
                Deed::Record {
                    process_id: process_id@,
                    state: *state,
                    reason: crate::text::optional(*reason),
                    handle: *handle,
                },
            ),
            Request::FindExecutable => Ask::FindExecutable,
            Request::Spawn { command, health, restart_on_crash } => Ask::Spawn {
                command: command@,
                health: asking(*health),
                restart_on_crash: *restart_on_crash,
            },
            Request::Register { project_id, running } => Ask::Register(project_id@, running@),
            Request::ReplaceHandle { project_id, process, handle } => Ask::ReplaceHandle(
                project_id@,
                process@,
                *handle,
            ),
            Request::Observe { handle } => Ask::Observe(*handle),
            Request::Poll { handle } => Ask::Poll(*handle),
            Request::Sleep { ms } => Ask::Sleep(*ms),
            Request::RecordStarted { project_id } => Ask::RecordStarted(project_id@),
            Request::ObserveAll { handles } => Ask::ObserveAll(handles@),
            Request::RecordObserved { process_id, state, handle, exit_code, reason } => {
                Ask::RecordObserved {
                    process_id: process_id@,
                    state: *state,
                    handle: *handle,
                    exit_code: *exit_code,
                    reason: crate::text::optional(*reason),
                }
            },
            Request::CountRestart { process_id } => Ask::CountRestart(process_id@),
            Request::Nothing => Ask::Nothing,
        }
    }
}

/// What carrying out one of the machine's actions takes.
#[derive(Debug)]
pub enum Effect {
    Record {
        process_id: String,
        state: ProcessState,
        reason: Option<String>,
        /// The supervisor whose pid and exit code are written with the status.
        handle: Option<u64>,
    },
    Stop { handle: u64 },
}

/// What carrying out an action takes, as a mathematical value.
pub enum Deed {
    Record {
        process_id: Seq<char>,
        state: ProcessState,
        reason: Option<Seq<char>>,
        handle: Option<u64>,
    },
    Stop(u64),
}

impl View for Effect {
    type V = Deed;

    open spec fn view(&self) -> Deed {
        match self {
            Effect::Record { process_id, state, reason, handle } => Deed::Record {
                process_id: process_id@,
                state: *state,
                reason: crate::text::optional(*reason),
                handle: *handle,
            },
            Effect::Stop { handle } => Deed::Stop(*handle),
        }
    }
}

/// Effects as mathematical values.
pub open spec fn deeds(effects: Seq<Effect>) -> Seq<Deed> {
    effects.map_values(|effect: Effect| effect@)
}

/// The supervisor of a process's row, at or after `from`.
pub open spec fn supervisor_from(
    running: Seq<RunningProcess>,
    process_id: Seq<char>,
    from: int,
) -> Option<u64>
    decreases running.len() - from,
{
    if from >= running.len() {
        None
    } else if running[from].process_id@ == process_id {
        Some(running[from].handle)
    } else {
        supervisor_from(running, process_id, from + 1)
    }
}

/// The supervisor of a process's row.
pub open spec fn supervisor_of(running: Seq<RunningProcess>, process_id: Seq<char>) -> Option<u64> {
    supervisor_from(running, process_id, 0)
}

/// What one action takes. Spawning is driven by the start itself, which needs
/// the handle that the spawn produces, and the project's status is written
/// from what the start returns.
pub open spec fn carried_out(
    act: Act,
    processes: Seq<ProcessRecord>,
    running: Seq<RunningProcess>,
) -> Seq<Deed> {
    match act {
        Act::Write(index, state, reason) => if 0 <= index < processes.len() {
            seq![
                Deed::Record {
                    process_id: processes[index].id@,
                    state,
                    reason,
                    handle: supervisor_of(running, processes[index].id@),
                },
            ]
        } else {
            Seq::empty()
        },
        Act::Stop(index) => if 0 <= index < processes.len() {
            match supervisor_of(running, processes[index].id@) {
                Some(handle) => seq![Deed::Stop(handle)],
                None => Seq::empty(),
            }
        } else {
            Seq::empty()
        },
        Act::Spawn(index) => Seq::empty(),
        Act::Project(status) => Seq::empty(),
    }
}

/// What a list of actions takes, in their order.
pub open spec fn all_carried_out(
    acts: Seq<Act>,
    processes: Seq<ProcessRecord>,
    running: Seq<RunningProcess>,
) -> Seq<Deed>
    decreases acts.len(),
{
    if acts.len() == 0 {
        Seq::empty()
    } else {
        all_carried_out(acts.drop_last(), processes, running) + carried_out(
            acts.last(),
            processes,
            running,
        )
    }
}

/// The first process that the actions spawn, at or after `from`.
pub open spec fn spawn_from(acts: Seq<Act>, from: int) -> Option<int>
    decreases acts.len() - from,
{
    if from >= acts.len() {
        None
    } else if acts[from] is Spawn {
        Some(acts[from]->Spawn_0)
    } else {
        spawn_from(acts, from + 1)
    }
}

/// The first process that the actions spawn.
pub open spec fn spawn_in(acts: Seq<Act>) -> Option<int> {
    spawn_from(acts, 0)
}

/// The supervisor of a process's row.
pub fn find_supervisor(running: &Vec<RunningProcess>, process_id: &str) -> (handle: Option<u64>)
    ensures
        handle == supervisor_of(running@, process_id@),
{
    let mut index: usize = 0;
    while index < running.len()
        invariant
            index <= running@.len(),
            supervisor_from(running@, process_id@, index as int) == supervisor_of(
                running@,
                process_id@,
            ),
        decreases running@.len() - index,
    {
        if same(running[index].process_id.as_str(), process_id) {
            return Some(running[index].handle);
        }
        index += 1;
    }
    None
}

/// What carrying out the machine's actions takes, in their order.
pub fn apply(
    processes: &Vec<ProcessRecord>,
    actions: &Vec<Action>,
    running: &Vec<RunningProcess>,
) -> (effects: Vec<Effect>)
    ensures
        deeds(effects@) == all_carried_out(
            crate::orchestration::acts(actions@),
            processes@,
            running@,
        ),
{
    let mut effects: Vec<Effect> = Vec::new();
    let ghost all = crate::orchestration::acts(actions@);
    let mut index: usize = 0;
    assert(deeds(effects@) =~= Seq::empty());
    assert(all.take(0) =~= Seq::empty());
    while index < actions.len()
        invariant
            index <= actions@.len(),
            all == crate::orchestration::acts(actions@),
            deeds(effects@) == all_carried_out(all.take(index as int), processes@, running@),
        decreases actions@.len() - index,
    {
        let ghost earlier = deeds(effects@);
        assert(all.take(index + 1).drop_last() =~= all.take(index as int));
        assert(all.take(index + 1).last() == actions@[index as int]@);
        match &actions[index] {
            Action::WriteProcessStatus { index: at, state, reason } => {
                if *at < processes.len() {
                    let process = &processes[*at];
                    effects.push(
                        Effect::Record {
                            process_id: process.id.clone(),
                            state: *state,
                            reason: copied(reason),
                            handle: find_supervisor(running, process.id.as_str()),
                        },
                    );
                    assert(deeds(effects@) =~= earlier.push(effects@.last()@));
                }
            },
            Action::Stop { index: at } => {
                if *at < processes.len() {
                    if let Some(handle) = find_supervisor(running, processes[*at].id.as_str()) {
                        effects.push(Effect::Stop { handle });
                        assert(deeds(effects@) =~= earlier.push(effects@.last()@));
                    }
                }
            },
            Action::Spawn { .. } | Action::WriteProjectStatus { .. } => {},
        }
        assert(deeds(effects@) =~= earlier + carried_out(
            all[index as int],
            processes@,
            running@,
        ));
        index += 1;
    }
    assert(all.take(index as int) =~= all);
    effects
}

/// The first process that the actions spawn.
pub fn find_spawn(actions: &Vec<Action>) -> (index: Option<usize>)
    ensures
        match index {
            Some(index) => spawn_in(crate::orchestration::acts(actions@)) == Some(index as int),
            None => spawn_in(crate::orchestration::acts(actions@)) is None,
        },
{
    let ghost all = crate::orchestration::acts(actions@);
    let mut at: usize = 0;
    while at < actions.len()
        invariant
            at <= actions@.len(),
            all == crate::orchestration::acts(actions@),
            spawn_from(all, at as int) == spawn_in(all),
        decreases actions@.len() - at,
    {
        assert(all[at as int] == actions@[at as int]@);
        if let Action::Spawn { index } = &actions[at] {
            return Some(*index);
        }
        at += 1;
    }
    None
}

} // verus!
