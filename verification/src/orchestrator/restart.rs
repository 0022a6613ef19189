//! Stopping and restarting one named process, leaving its siblings alone.
//!
//! The one operation that deliberately does not go through the state machine:
//! the user asked about this process, not about the project, and the siblings
//! keep their pids.
//!
//! A supervisor is bound to the child it was created with, so stopping alone
//! would end the process for good. A fresh supervisor is spawned and swapped
//! into the registry in its place.

pub mod course;
pub mod laws;

use super::StartContext;
use super::command::{Environment, ProcessCommand, joined, static_command};
use super::exchange::{Reply, Request};
use super::observed::{HostObserved, HostStatus};
use super::settings::{Toolchain, health_policy, port_at_index, port_by_process, resolve_toolchain};
use crate::lifecycle::LifecycleError;
use crate::orchestration::ProcessState;
use crate::records::{ProcessRecord, ProjectRecord, RuntimeRecord};
use crate::text::{copied, same};
use vstd::prelude::*;

verus! {

/// Where a restart is.
#[derive(Debug)]
enum Stage {
    Handle,
    Processes,
    Runtime,
    Candidates,
    Toolchain,
    Environment,
    Ports,
    Executable,
    Command,
    /// Ending the process that runs, with the new command at hand.
    StopPrevious(ProcessCommand),
    Spawn(ProcessCommand),
    Replace(u64),
    /// Ending the new process, which has no place in the registry any more.
    Undo(u64),
    Observe(u64),
    Record(u64, HostObserved),
    Count,
    Finished(Result<(), LifecycleError>),
}

/// Where a restart is, as a mathematical value.
pub enum Phase {
    Handle,
    Processes,
    Runtime,
    Candidates,
    Toolchain,
    Environment,
    Ports,
    Executable,
    Command,
    StopPrevious(super::command::Launch),
    Spawn(super::command::Launch),
    Replace(u64),
    Undo(u64),
    Observe(u64),
    Record(u64, HostObserved),
    Count,
    Finished(Result<(), crate::lifecycle::Failure>),
}

/// What a finished restart came to, as a mathematical value.
pub open spec fn came_to(result: Result<(), LifecycleError>) -> Result<
    (),
    crate::lifecycle::Failure,
> {
    match result {
        Ok(()) => Ok(()),
        Err(error) => Err(error@),
    }
}

impl View for Stage {
    type V = Phase;

    closed spec fn view(&self) -> Phase {
        match self {
            Stage::Handle => Phase::Handle,
            Stage::Processes => Phase::Processes,
            Stage::Runtime => Phase::Runtime,
            Stage::Candidates => Phase::Candidates,
            Stage::Toolchain => Phase::Toolchain,
            Stage::Environment => Phase::Environment,
            Stage::Ports => Phase::Ports,
            Stage::Executable => Phase::Executable,
            Stage::Command => Phase::Command,
            Stage::StopPrevious(command) => Phase::StopPrevious(command@),
            Stage::Spawn(command) => Phase::Spawn(command@),
            Stage::Replace(handle) => Phase::Replace(*handle),
            Stage::Undo(handle) => Phase::Undo(*handle),
            Stage::Observe(handle) => Phase::Observe(*handle),
            Stage::Record(handle, observed) => Phase::Record(*handle, *observed),
            Stage::Count => Phase::Count,
            Stage::Finished(result) => Phase::Finished(came_to(*result)),
        }
    }
}

/// A restart under way, as a mathematical value.
pub struct Restarting {
    pub project: ProjectRecord,
    pub directory: Seq<char>,
    pub name: Seq<char>,
    /// The handle of the process that is being replaced.
    pub previous: u64,
    pub processes: Seq<ProcessRecord>,
    /// Which of the rows has the name.
    pub index: int,
    pub runtime: Option<RuntimeRecord>,
    pub toolchain: Toolchain,
    pub env: Seq<(Seq<char>, Seq<char>)>,
    pub port: Option<u16>,
    pub phase: Phase,
}

/// The first row of that name at or after `from`; the number of rows where
/// there is none.
pub open spec fn row_named(processes: Seq<ProcessRecord>, name: Seq<char>, from: int) -> int
    decreases processes.len() - from,
{
    if from >= processes.len() || processes[from].name@ == name {
        from
    } else {
        row_named(processes, name, from + 1)
    }
}

/// The state a restarted process is recorded in, from what is seen of it.
pub open spec fn state_of(status: HostStatus) -> ProcessState {
    if status == HostStatus::Running {
        ProcessState::Running
    } else {
        ProcessState::Crashed
    }
}

impl Restarting {
    /// Whether the row has been found by this phase.
    pub open spec fn knows_row(self) -> bool {
        match self.phase {
            Phase::Handle => false,
            Phase::Processes => false,
            Phase::Finished(result) => false,
            _ => true,
        }
    }

    /// What every restart under way keeps.
    pub open spec fn wf(self) -> bool {
        &&& self.knows_row() ==> 0 <= self.index < self.processes.len()
        &&& self.knows_row() && !(self.phase is Runtime) ==> self.runtime is Some
    }

    pub open spec fn at(self, phase: Phase) -> Restarting {
        Restarting { phase, ..self }
    }

    pub open spec fn failed(self, failure: crate::lifecycle::Failure) -> Restarting {
        self.at(Phase::Finished(Err(failure)))
    }

    /// The refusal of a name that is not there.
    pub open spec fn unknown(self) -> Restarting {
        self.failed(crate::lifecycle::Failure::NoSuchProcess(self.project.id@, self.name))
    }

    pub open spec fn equipped(self, toolchain: Toolchain) -> Restarting {
        Restarting { toolchain, ..self }.at(Phase::Environment)
    }

    /// The row of the process that is being restarted.
    pub open spec fn row(self) -> ProcessRecord {
        self.processes[self.index]
    }

    /// The directory the process runs in.
    pub open spec fn directory(self) -> super::command::Place {
        super::command::working_directory(self.directory, self.row().working_dir@)
    }

    /// What is asked for next.
    pub open spec fn request(self) -> super::exchange::Ask {
        match self.phase {
            Phase::Handle => super::exchange::Ask::FindHandle(self.project.id@, self.name),
            Phase::Processes => super::exchange::Ask::ListProcesses(self.project.id@),
            Phase::Runtime => super::exchange::Ask::FindRuntime(self.project.id@),
            Phase::Candidates => super::exchange::Ask::ListCandidates(self.runtime->0.runtime@),
            Phase::Toolchain => super::exchange::Ask::Probe(self.runtime->0.runtime@),
            Phase::Environment => super::exchange::Ask::ResolveEnvironment(self.project.id@),
            Phase::Ports => super::exchange::Ask::ListPorts(self.project.id@),
            Phase::Executable => super::exchange::Ask::FindExecutable,
            Phase::Command => super::exchange::Ask::BuildCommand {
                runtime: self.runtime->0.runtime@,
                text: self.row().command@,
                directory: self.directory(),
                toolchain: self.toolchain,
                port: self.port,
                env: self.env,
            },
            Phase::StopPrevious(command) => super::exchange::Ask::Stop(self.previous),
            Phase::Spawn(command) => super::exchange::Ask::Spawn {
                command,
                health: super::exchange::asked_of(self.row(), self.port),
                restart_on_crash: self.project.restarts(),
            },
            Phase::Replace(handle) => super::exchange::Ask::ReplaceHandle(
                self.project.id@,
                self.name,
                handle,
            ),
            Phase::Undo(handle) => super::exchange::Ask::Stop(handle),
            Phase::Observe(handle) => super::exchange::Ask::Observe(handle),
            Phase::Record(handle, observed) => super::exchange::Ask::RecordObserved {
                process_id: self.row().id@,
                state: state_of(observed.status),
                handle,
                exit_code: observed.exit_code,
                reason: crate::text::optional(observed.failure_reason),
            },
            Phase::Count => super::exchange::Ask::CountRestart(self.row().id@),
            Phase::Finished(result) => super::exchange::Ask::Nothing,
        }
    }

    /// The restart once a reply came. A reply to something that was not asked
    /// changes nothing.
    pub open spec fn after(self, reply: Reply) -> Restarting {
        match (self.phase, reply) {
            (Phase::Handle, Reply::Handle(handle)) => match handle {
                Some(handle) => Restarting { previous: handle, ..self }.at(Phase::Processes),
                None => self.unknown(),
            },
            (Phase::Processes, Reply::Processes(result)) => match result {
                Ok(processes) => {
                    let index = row_named(processes@, self.name, 0);
                    if index < processes@.len() {
                        Restarting { processes: processes@, index, ..self }.at(Phase::Runtime)
                    } else {
                        self.unknown()
                    }
                },
                Err(error) => self.failed(crate::lifecycle::Failure::Database(error@)),
            },
            (Phase::Runtime, Reply::Runtime(result)) => match result {
                Ok(Some(runtime)) => {
                    let found = Restarting { runtime: Some(runtime), ..self };
                    if runtime.serves_itself() {
                        found.equipped(Toolchain::NotRequired)
                    } else {
                        found.at(Phase::Candidates)
                    }
                },
                Ok(None) => self.failed(
                    crate::lifecycle::Failure::Scaffold("the project has no runtime row"@),
                ),
                Err(error) => self.failed(crate::lifecycle::Failure::Database(error@)),
            },
            (Phase::Candidates, Reply::Candidates(candidates)) => if candidates@.len() == 0 {
                self.equipped(Toolchain::NotRequired)
            } else {
                self.at(Phase::Toolchain)
            },
            (Phase::Toolchain, Reply::Probed(probed)) => match super::settings::resolved(
                self.runtime->0.runtime@,
                probed,
            ) {
                Ok(toolchain) => self.equipped(toolchain),
                Err(failure) => self.failed(failure),
            },
            (Phase::Environment, Reply::Environment(result)) => match result {
                Ok(environment) => Restarting {
                    env: crate::ordered::settings(environment.values@),
                    ..self
                }.at(Phase::Ports),
                Err(error) => self.failed(crate::lifecycle::Failure::Database(error@)),
            },
            (Phase::Ports, Reply::Ports(result)) => match result {
                Ok(ports) => Restarting {
                    port: super::settings::port_at(
                        super::settings::ports_of(ports@, self.processes),
                        self.index,
                    ),
                    ..self
                }.at(
                    if self.runtime->0.serves_itself() {
                        Phase::Executable
                    } else {
                        Phase::Command
                    },
                ),
                Err(error) => self.failed(crate::lifecycle::Failure::Database(error@)),
            },
            (Phase::Executable, Reply::Executable(executable)) => match super::command::serving(
                match executable {
                    Ok(program) => Ok(program@),
                    Err(error) => Err(error@),
                },
                self.directory(),
                crate::text::optional(self.runtime->0.publish_dir),
                self.port,
                self.env,
            ) {
                Ok(command) => self.at(Phase::StopPrevious(command)),
                Err(failure) => self.failed(failure),
            },
            (Phase::Command, Reply::Command(result)) => match result {
                Ok(command) => self.at(Phase::StopPrevious(command@)),
                Err(error) => self.failed(crate::lifecycle::Failure::Command(error@)),
            },
            (Phase::StopPrevious(command), Reply::Stopped(result)) => match result {
                Ok(()) => self.at(Phase::Spawn(command)),
                Err(error) => self.failed(crate::lifecycle::Failure::Host(error@)),
            },
            (Phase::Spawn(command), Reply::Spawned(result)) => match result {
                Ok(handle) => self.at(Phase::Replace(handle)),
                Err(error) => self.failed(crate::lifecycle::Failure::Host(error@)),
            },
            (Phase::Replace(handle), Reply::Replaced(found)) => if found {
                self.at(Phase::Observe(handle))
            } else {
                self.at(Phase::Undo(handle))
            },
            (Phase::Undo(handle), Reply::Stopped(result)) => self.unknown(),
            (Phase::Observe(handle), Reply::Observed(observed)) => self.at(
                Phase::Record(handle, observed),
            ),
            (Phase::Record(handle, observed), Reply::Done) => self.at(Phase::Count),
            (Phase::Count, Reply::Done) => self.at(Phase::Finished(Ok(()))),
            _ => self,
        }
    }
}

/// What a restart has found out so far.
#[derive(Debug)]
struct Kit {
    project: ProjectRecord,
    directory: String,
    name: String,
    previous: u64,
    processes: Vec<ProcessRecord>,
    index: usize,
    runtime: Option<RuntimeRecord>,
    toolchain: Toolchain,
    environment: Environment,
    port: Option<u16>,
}

/// A restart of one process under way.
#[derive(Debug)]
pub struct RestartRun {
    kit: Kit,
    stage: Stage,
}

fn find_row(processes: &Vec<ProcessRecord>, name: &str) -> (at: usize)
    ensures
        at == row_named(processes@, name@, 0),
        at <= processes@.len(),
{
    let mut at: usize = 0;
    while at < processes.len() && !same(processes[at].name.as_str(), name)
        invariant
            at <= processes@.len(),
            row_named(processes@, name@, at as int) == row_named(processes@, name@, 0),
        decreases processes@.len() - at,
    {
        at += 1;
    }
    at
}

impl Kit {
    /// A restart with what has been found out so far, in the given phase.
    closed spec fn in_phase(self, phase: Phase) -> Restarting {
        Restarting {
            project: self.project,
            directory: self.directory@,
            name: self.name@,
            previous: self.previous,
            processes: self.processes@,
            index: self.index as int,
            runtime: self.runtime,
            toolchain: self.toolchain,
            env: crate::ordered::settings(self.environment.values@),
            port: self.port,
            phase,
        }
    }

    /// The same restart with no phase to speak of.
    closed spec fn so_far(self) -> Restarting {
        self.in_phase(Phase::Handle)
    }

    fn at(self, stage: Stage) -> (run: RestartRun)
        requires
            self.in_phase(stage@).wf(),
        ensures
            run@ == self.in_phase(stage@),
    {
        RestartRun { kit: self, stage }
    }

    fn failed(self, error: LifecycleError) -> (run: RestartRun)
        ensures
            run@ == self.so_far().failed(error@),
    {
        self.at(Stage::Finished(Err(error)))
    }

    fn unknown(self) -> (run: RestartRun)
        ensures
            run@ == self.so_far().unknown(),
    {
        let project = self.project.id.clone();
        let process = self.name.clone();
        self.failed(LifecycleError::NoSuchProcess { project, process })
    }

    fn equipped(self, toolchain: Toolchain) -> (run: RestartRun)
        requires
            self.runtime is Some,
            self.index < self.processes@.len(),
        ensures
            run@ == self.so_far().equipped(toolchain),
    {
        Kit { toolchain, ..self }.at(Stage::Environment)
    }

    fn runtime_word(&self) -> (word: String)
        requires
            self.runtime is Some,
        ensures
            word@ == self.runtime->0.runtime@,
    {
        match &self.runtime {
            Some(runtime) => runtime.runtime.clone(),
            None => String::new(),
        }
    }

    /// The command that serves a static site is made here.
    fn serve(self, executable: Result<String, String>) -> (run: RestartRun)
        requires
            self.runtime is Some,
            self.index < self.processes@.len(),
        ensures
            run@ == self.in_phase(Phase::Executable).after(Reply::Executable(executable)),
    {
        let directory = joined(
            self.directory.as_str(),
            self.processes[self.index].working_dir.as_str(),
        );
        let publish_dir = match &self.runtime {
            Some(runtime) => match &runtime.publish_dir {
                Some(publish_dir) => Some(publish_dir.as_str()),
                None => None,
            },
            None => None,
        };
        let found = match &executable {
            Ok(program) => Ok(program.as_str()),
            Err(error) => Err(error.as_str()),
        };
        match static_command(found, &directory, publish_dir, self.port, &self.environment) {
            Ok(command) => self.at(Stage::StopPrevious(command)),
            Err(error) => self.failed(error),
        }
    }
}

impl View for RestartRun {
    type V = Restarting;

    closed spec fn view(&self) -> Restarting {
        self.kit.in_phase(self.stage@)
    }
}

impl RestartRun {
    #[verifier::type_invariant]
    spec fn well_formed(self) -> bool {
        self@.wf()
    }

    /// A restart of one process of a project, with nothing found out yet.
    pub fn new(context: StartContext, process_name: &str) -> (run: RestartRun)
        ensures
            run@.project == context.project,
            run@.directory == context.directory@,
            run@.name == process_name@,
            run@.phase == Phase::Handle,
            run@.wf(),
    {
        let StartContext { project, directory } = context;
        Kit {
            project,
            directory,
            name: process_name.to_owned(),
            previous: 0,
            processes: Vec::new(),
            index: 0,
            runtime: None,
            toolchain: Toolchain::NotRequired,
            environment: Environment::empty(),
            port: None,
        }.at(Stage::Handle)
    }

    /// What is to be done or looked up next.
    pub fn request(&self) -> (request: Request)
        ensures
            request@ == self@.request(),
    {
        proof {
            use_type_invariant(self);
        }
        let kit = &self.kit;
        match &self.stage {
            Stage::Handle => Request::FindHandle {
                project_id: kit.project.id.clone(),
                process: kit.name.clone(),
            },
            Stage::Processes => Request::ListProcesses { project_id: kit.project.id.clone() },
            Stage::Runtime => Request::FindRuntime { project_id: kit.project.id.clone() },
            Stage::Candidates => Request::ListCandidates { runtime: kit.runtime_word() },
            Stage::Toolchain => Request::Probe { runtime: kit.runtime_word() },
            Stage::Environment => Request::ResolveEnvironment {
                project_id: kit.project.id.clone(),
            },
            Stage::Ports => Request::ListPorts { project_id: kit.project.id.clone() },
            Stage::Executable => Request::FindExecutable,
            Stage::Command => {
                let process = &kit.processes[kit.index];
                Request::BuildCommand {
                    runtime: kit.runtime_word(),
                    text: process.command.clone(),
                    directory: joined(
                        kit.directory.as_str(),
                        process.working_dir.as_str(),
                    ),
                    toolchain: kit.toolchain.clone(),
                    port: kit.port,
                    env: kit.environment.values.duplicate(),
                }
            },
            Stage::StopPrevious(_) => Request::Stop { handle: kit.previous },
            Stage::Spawn(command) => Request::Spawn {
                command: command.duplicate(),
                health: health_policy(&kit.processes[kit.index], kit.port),
                restart_on_crash: kit.project.restarts_on_crash(),
            },
            Stage::Replace(handle) => Request::ReplaceHandle {
                project_id: kit.project.id.clone(),
                process: kit.name.clone(),
                handle: *handle,
            },
            Stage::Undo(handle) => Request::Stop { handle: *handle },
            Stage::Observe(handle) => Request::Observe { handle: *handle },
            Stage::Record(handle, observed) => Request::RecordObserved {
                process_id: kit.processes[kit.index].id.clone(),
                state: if observed.status == HostStatus::Running {
                    ProcessState::Running
                } else {
                    ProcessState::Crashed
                },
                handle: *handle,
                exit_code: observed.exit_code,
                reason: copied(&observed.failure_reason),
            },
            Stage::Count => Request::CountRestart {
                process_id: kit.processes[kit.index].id.clone(),
            },
            Stage::Finished(_) => Request::Nothing,
        }
    }

    /// Take what came of the request, and decide what follows.
    pub fn step(self, reply: Reply) -> (next: RestartRun)
        ensures
            next@ == self@.after(reply),
    {
        proof {
            use_type_invariant(&self);
        }
        let RestartRun { kit, stage } = self;
        match stage {
            Stage::Handle => match reply {
                Reply::Handle(Some(handle)) => Kit { previous: handle, ..kit }.at(
                    Stage::Processes,
                ),
                Reply::Handle(None) => kit.unknown(),
                _ => kit.at(Stage::Handle),
            },
            Stage::Processes => match reply {
                Reply::Processes(Ok(processes)) => {
                    let index = find_row(&processes, kit.name.as_str());
                    if index < processes.len() {
                        Kit { processes, index, ..kit }.at(Stage::Runtime)
                    } else {
                        kit.unknown()
                    }
                },
                Reply::Processes(Err(error)) => kit.failed(LifecycleError::Database(error)),
                _ => kit.at(Stage::Processes),
            },
            Stage::Runtime => match reply {
                Reply::Runtime(Ok(Some(runtime))) => {
                    let serves_itself = runtime.is_static();
                    let kit = Kit { runtime: Some(runtime), ..kit };
                    if serves_itself {
                        kit.equipped(Toolchain::NotRequired)
                    } else {
                        kit.at(Stage::Candidates)
                    }
                },
                Reply::Runtime(Ok(None)) => kit.failed(
                    LifecycleError::Scaffold("the project has no runtime row".to_owned()),
                ),
                Reply::Runtime(Err(error)) => kit.failed(LifecycleError::Database(error)),
                _ => kit.at(Stage::Runtime),
            },
            Stage::Candidates => match reply {
                Reply::Candidates(candidates) => if candidates.len() == 0 {
                    kit.equipped(Toolchain::NotRequired)
                } else {
                    kit.at(Stage::Toolchain)
                },
                _ => kit.at(Stage::Candidates),
            },
            Stage::Toolchain => match reply {
                Reply::Probed(probed) => {
                    let runtime = kit.runtime_word();
                    match resolve_toolchain(runtime.as_str(), probed) {
                        Ok(toolchain) => kit.equipped(toolchain),
                        Err(error) => kit.failed(error),
                    }
                },
                _ => kit.at(Stage::Toolchain),
            },
            Stage::Environment => match reply {
                Reply::Environment(Ok(environment)) => Kit { environment, ..kit }.at(Stage::Ports),
                Reply::Environment(Err(error)) => kit.failed(LifecycleError::Database(error)),
                _ => kit.at(Stage::Environment),
            },
            Stage::Ports => match reply {
                Reply::Ports(Ok(ports)) => {
                    let allocated = port_by_process(&ports, &kit.processes);
                    let port = port_at_index(&allocated, kit.index);
                    let serves_itself = match &kit.runtime {
                        Some(runtime) => runtime.is_static(),
                        None => false,
                    };
                    let kit = Kit { port, ..kit };
                    if serves_itself {
                        kit.at(Stage::Executable)
                    } else {
                        kit.at(Stage::Command)
                    }
                },
                Reply::Ports(Err(error)) => kit.failed(LifecycleError::Database(error)),
                _ => kit.at(Stage::Ports),
            },
            Stage::Executable => match reply {
                Reply::Executable(executable) => kit.serve(executable),
                _ => kit.at(Stage::Executable),
            },
            Stage::Command => match reply {
                Reply::Command(Ok(command)) => kit.at(Stage::StopPrevious(command)),
                Reply::Command(Err(error)) => kit.failed(LifecycleError::Command(error)),
                _ => kit.at(Stage::Command),
            },
            Stage::StopPrevious(command) => match reply {
                // The old process has to be gone before the new one is
                // spawned, or the two fight over the port.
                Reply::Stopped(Ok(_)) => kit.at(Stage::Spawn(command)),
                Reply::Stopped(Err(error)) => kit.failed(LifecycleError::Host(error)),
                _ => kit.at(Stage::StopPrevious(command)),
            },
            Stage::Spawn(command) => match reply {
                Reply::Spawned(Ok(handle)) => kit.at(Stage::Replace(handle)),
                Reply::Spawned(Err(error)) => kit.failed(LifecycleError::Host(error)),
                _ => kit.at(Stage::Spawn(command)),
            },
            Stage::Replace(handle) => match reply {
                Reply::Replaced(true) => kit.at(Stage::Observe(handle)),
                // The project was stopped out from under the restart. The new
                // process is not in the registry, so nothing could ever stop
                // it.
                Reply::Replaced(false) => kit.at(Stage::Undo(handle)),
                _ => kit.at(Stage::Replace(handle)),
            },
            Stage::Undo(handle) => match reply {
                Reply::Stopped(_) => kit.unknown(),
                _ => kit.at(Stage::Undo(handle)),
            },
            Stage::Observe(handle) => match reply {
                Reply::Observed(observed) => kit.at(Stage::Record(handle, observed)),
                _ => kit.at(Stage::Observe(handle)),
            },
            Stage::Record(handle, observed) => match reply {
                Reply::Done => kit.at(Stage::Count),
                _ => kit.at(Stage::Record(handle, observed)),
            },
            Stage::Count => match reply {
                Reply::Done => kit.at(Stage::Finished(Ok(()))),
                _ => kit.at(Stage::Count),
            },
            Stage::Finished(result) => kit.at(Stage::Finished(result)),
        }
    }

    /// Whether nothing is left to do.
    pub fn is_finished(&self) -> (finished: bool)
        ensures
            finished == (self@.phase is Finished),
    {
        match &self.stage {
            Stage::Finished(_) => true,
            _ => false,
        }
    }

    /// What the restart came to, once nothing is left to do.
    pub fn outcome(self) -> (outcome: Option<Result<(), LifecycleError>>)
        ensures
            outcome is Some == (self@.phase is Finished),
            outcome matches Some(result) ==> self@.phase == Phase::Finished(came_to(result)),
    {
        match self.stage {
            Stage::Finished(result) => Some(result),
            _ => None,
        }
    }
}

} // verus!
