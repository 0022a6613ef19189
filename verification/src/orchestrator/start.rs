//! Starting every process of a project, in order.
//!
//! A start alternates looking things up, running commands and deciding. The
//! deciding is here: [`StartRun::request`] says what is to be done next, and
//! [`StartRun::step`] takes what came of it. Whoever drives the run does the
//! one and hands over the other until nothing is left to do.

pub mod course;
pub mod laws;
pub mod scope;
pub mod teardown;

use super::StartContext;
use super::command::{Environment, ProcessCommand, joined, static_command};
use super::exchange::{Effect, Reply, Request, apply, find_spawn};
use super::observed::{HostStatus, Observed, Verdict, await_health, observed_for};
use super::prepare::{PrepareStep, prepare_steps};
use super::registry::{RunningProcess, duplicate};
use super::settings::{Toolchain, health_policy, port_at_index, port_by_process, resolve_toolchain};
use crate::lifecycle::LifecycleError;
use crate::orchestration::{Event, Machine, Process, ProjectStatus};
use crate::records::{ProcessRecord, ProjectRecord, RuntimeRecord};
use crate::text::copied;
use vstd::prelude::*;

verus! {

/// What follows once the machine's actions are carried out.
#[derive(Debug)]
enum Then {
    /// The process at that index is started.
    Start(usize),
    /// Nothing waits to be started any more.
    Rest,
    /// The start has failed, with nothing running.
    Fail(LifecycleError),
    /// The start has failed: what runs is stopped.
    Abandon(LifecycleError),
}

/// What follows, as a mathematical value.
pub enum Next {
    Start(int),
    Rest,
    Fail(crate::lifecycle::Failure),
    Abandon(crate::lifecycle::Failure),
}

/// Where a start is.
#[derive(Debug)]
enum Stage {
    Processes,
    Runtime,
    Candidates,
    Toolchain,
    Registered,
    /// Ending the supervisors of a previous run, last one first.
    StopPrevious(Vec<RunningProcess>),
    Port,
    Environment,
    Ports,
    /// Writing that the project is being built.
    Building,
    /// Making the command of a preparation step.
    Prepare(usize),
    RunStep(usize, ProcessCommand),
    /// Writing that the project, now built, is starting.
    Built,
    /// Carrying out what the machine decided, from that effect on.
    Apply(Vec<Effect>, usize, Then),
    Executable(usize),
    Command(usize),
    Spawn(usize, ProcessCommand),
    Register(usize, u64),
    /// Seeing whether a process survived its settle window.
    Settle(usize, u64),
    Poll(usize, u64),
    Sleep(usize, u64),
    StopUnhealthy(usize, u64),
    /// Stopping the first so many of what runs, last one first.
    StopAll(usize, LifecycleError),
    RegisterAll,
    RecordStarted,
    ObserveAll,
    Finished(Result<Observed, LifecycleError>),
}

/// Where a start is, as a mathematical value.
pub enum Phase {
    Processes,
    Runtime,
    Candidates,
    Toolchain,
    Registered,
    StopPrevious(Seq<RunningProcess>),
    Port,
    Environment,
    Ports,
    Building,
    Prepare(int),
    RunStep(int, super::command::Launch),
    Built,
    Apply(Seq<super::exchange::Deed>, int, Next),
    Executable(int),
    Command(int),
    Spawn(int, super::command::Launch),
    Register(int, u64),
    Settle(int, u64),
    Poll(int, u64),
    Sleep(int, u64),
    StopUnhealthy(int, u64),
    StopAll(int, crate::lifecycle::Failure),
    RegisterAll,
    RecordStarted,
    ObserveAll,
    Finished(Result<super::observed::Seen, crate::lifecycle::Failure>),
}

impl View for Then {
    type V = Next;

    closed spec fn view(&self) -> Next {
        match self {
            Then::Start(index) => Next::Start(*index as int),
            Then::Rest => Next::Rest,
            Then::Fail(error) => Next::Fail(error@),
            Then::Abandon(error) => Next::Abandon(error@),
        }
    }
}

/// What a finished start came to, as a mathematical value.
pub open spec fn came_to(result: Result<Observed, LifecycleError>) -> Result<
    super::observed::Seen,
    crate::lifecycle::Failure,
> {
    match result {
        Ok(observed) => Ok(observed@),
        Err(error) => Err(error@),
    }
}

impl View for Stage {
    type V = Phase;

    closed spec fn view(&self) -> Phase {
        match self {
            Stage::Processes => Phase::Processes,
            Stage::Runtime => Phase::Runtime,
            Stage::Candidates => Phase::Candidates,
            Stage::Toolchain => Phase::Toolchain,
            Stage::Registered => Phase::Registered,
            Stage::StopPrevious(left) => Phase::StopPrevious(left@),
            Stage::Port => Phase::Port,
            Stage::Environment => Phase::Environment,
            Stage::Ports => Phase::Ports,
            Stage::Building => Phase::Building,
            Stage::Prepare(at) => Phase::Prepare(*at as int),
            Stage::RunStep(at, command) => Phase::RunStep(*at as int, command@),
            Stage::Built => Phase::Built,
            Stage::Apply(effects, at, then_next) => Phase::Apply(
                super::exchange::deeds(effects@),
                *at as int,
                then_next@,
            ),
            Stage::Executable(index) => Phase::Executable(*index as int),
            Stage::Command(index) => Phase::Command(*index as int),
            Stage::Spawn(index, command) => Phase::Spawn(*index as int, command@),
            Stage::Register(index, handle) => Phase::Register(*index as int, *handle),
            Stage::Settle(index, handle) => Phase::Settle(*index as int, *handle),
            Stage::Poll(index, handle) => Phase::Poll(*index as int, *handle),
            Stage::Sleep(index, handle) => Phase::Sleep(*index as int, *handle),
            Stage::StopUnhealthy(index, handle) => Phase::StopUnhealthy(*index as int, *handle),
            Stage::StopAll(left, error) => Phase::StopAll(*left as int, error@),
            Stage::RegisterAll => Phase::RegisterAll,
            Stage::RecordStarted => Phase::RecordStarted,
            Stage::ObserveAll => Phase::ObserveAll,
            Stage::Finished(result) => Phase::Finished(came_to(*result)),
        }
    }
}

/// A start under way, as a mathematical value.
pub struct Starting {
    pub project: ProjectRecord,
    pub directory: Seq<char>,
    pub processes: Seq<ProcessRecord>,
    pub runtime: Option<RuntimeRecord>,
    pub toolchain: Toolchain,
    pub env: Seq<(Seq<char>, Seq<char>)>,
    pub ports: Seq<Option<u16>>,
    pub steps: Seq<super::prepare::Preparation>,
    pub machine: crate::orchestration::Project,
    pub running: Seq<RunningProcess>,
    pub phase: Phase,
}

/// Which processes have a health check.
pub open spec fn checks_of(processes: Seq<ProcessRecord>) -> Seq<bool> {
    processes.map_values(|process: ProcessRecord| process.checked())
}

impl Starting {
    /// The index of the process that is being brought up.
    pub open spec fn bringing_up(self) -> Option<int> {
        match self.phase {
            Phase::Executable(index) => Some(index),
            Phase::Command(index) => Some(index),
            Phase::Spawn(index, command) => Some(index),
            Phase::Register(index, handle) => Some(index),
            Phase::Settle(index, handle) => Some(index),
            Phase::Poll(index, handle) => Some(index),
            Phase::Sleep(index, handle) => Some(index),
            Phase::StopUnhealthy(index, handle) => Some(index),
            _ => None,
        }
    }

    /// Whether the runtime's row has been found by this phase.
    pub open spec fn knows_runtime(self) -> bool {
        match self.phase {
            Phase::Processes => false,
            Phase::Runtime => false,
            Phase::Finished(result) => false,
            _ => true,
        }
    }

    /// What every start under way keeps.
    pub open spec fn wf(self) -> bool {
        &&& self.knows_runtime() ==> self.runtime is Some
        &&& self.bringing_up() matches Some(index) ==> 0 <= index < self.processes.len()
        &&& match self.phase {
            Phase::StopPrevious(left) => left.len() > 0,
            Phase::Building => self.steps.len() > 0,
            Phase::Prepare(at) => 0 <= at < self.steps.len(),
            Phase::RunStep(at, command) => 0 <= at < self.steps.len(),
            Phase::Apply(effects, at, then_next) => 0 <= at < effects.len(),
            Phase::StopAll(left, failure) => 0 < left <= self.running.len(),
            _ => true,
        }
    }

    /// The same start in another phase.
    pub open spec fn at(self, phase: Phase) -> Starting {
        Starting { phase, ..self }
    }

    pub open spec fn failed(self, failure: crate::lifecycle::Failure) -> Starting {
        self.at(Phase::Finished(Err(failure)))
    }

    /// The start once the machine's actions are carried out.
    pub open spec fn go(self, then_next: Next) -> Starting {
        match then_next {
            Next::Start(index) => if 0 <= index < self.processes.len() {
                if self.runtime->0.serves_itself() {
                    self.at(Phase::Executable(index))
                } else {
                    self.at(Phase::Command(index))
                }
            } else {
                self.at(Phase::RegisterAll)
            },
            Next::Rest => self.at(Phase::RegisterAll),
            Next::Fail(failure) => self.failed(failure),
            Next::Abandon(failure) => self.stopping(self.running.len() as int, failure),
        }
    }

    /// The start stopping the first `left` of what runs, and then failing.
    pub open spec fn stopping(self, left: int, failure: crate::lifecycle::Failure) -> Starting {
        if left <= 0 {
            self.failed(failure)
        } else {
            self.at(Phase::StopAll(left, failure))
        }
    }

    /// The start carrying out actions, and going on from there.
    pub open spec fn applying(
        self,
        acts: Seq<crate::orchestration::Act>,
        then_next: Next,
    ) -> Starting {
        let deeds = super::exchange::all_carried_out(acts, self.processes, self.running);
        if deeds.len() == 0 {
            self.go(then_next)
        } else {
            self.at(Phase::Apply(deeds, 0, then_next))
        }
    }

    /// What follows the actions that the machine asked for.
    pub open spec fn next_of(acts: Seq<crate::orchestration::Act>) -> Next {
        match super::exchange::spawn_in(acts) {
            Some(index) => Next::Start(index),
            None => Next::Rest,
        }
    }

    /// The start once the machine heard of an event, going on as told.
    pub open spec fn heard_then(
        self,
        event: crate::orchestration::Happening,
        then_next: Next,
    ) -> Starting {
        Starting { machine: self.machine.after(event), ..self }.applying(
            self.machine.acts(event),
            then_next,
        )
    }

    /// The start once the machine heard of an event.
    pub open spec fn heard(self, event: crate::orchestration::Happening) -> Starting {
        self.heard_then(event, Starting::next_of(self.machine.acts(event)))
    }

    /// The start once the process at an index could not be started: the machine
    /// hears why, what it then asks for is carried out, and everything that
    /// runs is stopped.
    pub open spec fn abandoned(self, index: int, failure: crate::lifecycle::Failure) -> Starting {
        self.heard_then(
            crate::orchestration::Happening::PrepareFailed(index, failure.text()),
            Next::Abandon(failure),
        )
    }

    /// The start once everything is prepared: the machine begins.
    pub open spec fn begun(self) -> Starting {
        Starting { machine: self.machine.started(), ..self }.applying(
            self.machine.start_acts(),
            Starting::next_of(self.machine.start_acts()),
        )
    }

    /// The start with the first `at` of its steps run. The project is being
    /// built until all of them are.
    pub open spec fn prepared(self, at: int) -> Starting {
        if at < self.steps.len() {
            self.at(Phase::Prepare(at))
        } else {
            self.at(Phase::Built)
        }
    }

    /// The start with the toolchain known.
    pub open spec fn equipped(self, toolchain: Toolchain) -> Starting {
        Starting { toolchain, ..self }.at(Phase::Registered)
    }

    /// The start with the first `left` of a previous run's processes to end.
    pub open spec fn ending(self, left: Seq<RunningProcess>) -> Starting {
        if left.len() == 0 {
            self.at(Phase::Port)
        } else {
            self.at(Phase::StopPrevious(left))
        }
    }

    /// The start with the project's ports known: the machine is made, and the
    /// steps to prepare are decided. Where there is none, nothing is built.
    pub open spec fn laid_out(self, ports: Seq<crate::records::PortRecord>) -> Starting {
        let start = Starting {
            ports: super::settings::ports_of(ports, self.processes),
            steps: super::prepare::needed(self.processes),
            machine: crate::orchestration::Project {
                checks: checks_of(self.processes),
                states: Seq::new(
                    self.processes.len(),
                    |i: int| crate::orchestration::ProcessState::Stopped,
                ),
                stopping: false,
            },
            ..self
        };
        if start.steps.len() == 0 {
            start.begun()
        } else {
            start.at(Phase::Building)
        }
    }

    /// The directory the process at an index runs in.
    pub open spec fn directory_of(self, index: int) -> super::command::Place {
        super::command::working_directory(
            self.directory,
            self.processes[index].working_dir@,
        )
    }

    /// What is asked for next.
    pub open spec fn request(self) -> super::exchange::Ask {
        match self.phase {
            Phase::Processes => super::exchange::Ask::ListProcesses(self.project.id@),
            Phase::Runtime => super::exchange::Ask::FindRuntime(self.project.id@),
            Phase::Candidates => super::exchange::Ask::ListCandidates(self.runtime->0.runtime@),
            Phase::Toolchain => super::exchange::Ask::Probe(self.runtime->0.runtime@),
            Phase::Registered => super::exchange::Ask::TakeRegistered(self.project.id@),
            Phase::StopPrevious(left) => super::exchange::Ask::Stop(left.last().handle),
            Phase::Port => super::exchange::Ask::CheckPort(self.project.id@),
            Phase::Environment => super::exchange::Ask::ResolveEnvironment(self.project.id@),
            Phase::Ports => super::exchange::Ask::ListPorts(self.project.id@),
            Phase::Building => super::exchange::Ask::Announce(
                self.project.id@,
                crate::records::ProjectStatus::Building,
            ),
            Phase::Prepare(at) => super::exchange::Ask::BuildCommand {
                runtime: self.runtime->0.runtime@,
                text: self.steps[at].command,
                directory: super::command::working_directory(
                    self.directory,
                    self.steps[at].working_dir,
                ),
                toolchain: self.toolchain,
                port: super::settings::port_at(self.ports, self.steps[at].process_index),
                env: self.env,
            },
            Phase::RunStep(at, command) => super::exchange::Ask::RunStep(
                self.steps[at].phase,
                command,
            ),
            Phase::Built => super::exchange::Ask::Announce(
                self.project.id@,
                crate::records::ProjectStatus::Starting,
            ),
            Phase::Apply(effects, at, then_next) => match effects[at] {
                super::exchange::Deed::Stop(handle) => super::exchange::Ask::Stop(handle),
                deed => super::exchange::Ask::Record(deed),
            },
            Phase::Executable(index) => super::exchange::Ask::FindExecutable,
            Phase::Command(index) => super::exchange::Ask::BuildCommand {
                runtime: self.runtime->0.runtime@,
                text: self.processes[index].command@,
                directory: self.directory_of(index),
                toolchain: self.toolchain,
                port: super::settings::port_at(self.ports, index),
                env: self.env,
            },
            Phase::Spawn(index, command) => super::exchange::Ask::Spawn {
                command,
                health: super::exchange::asked_of(
                    self.processes[index],
                    super::settings::port_at(self.ports, index),
                ),
                restart_on_crash: self.project.restarts(),
            },
            Phase::Register(index, handle) => super::exchange::Ask::Register(
                self.project.id@,
                self.running,
            ),
            Phase::Settle(index, handle) => super::exchange::Ask::Observe(handle),
            Phase::Poll(index, handle) => super::exchange::Ask::Poll(handle),
            Phase::Sleep(index, handle) => super::exchange::Ask::Sleep(250),
            Phase::StopUnhealthy(index, handle) => super::exchange::Ask::Stop(handle),
            Phase::StopAll(left, failure) => super::exchange::Ask::Stop(
                self.running[left - 1].handle,
            ),
            Phase::RegisterAll => super::exchange::Ask::Register(self.project.id@, self.running),
            Phase::RecordStarted => super::exchange::Ask::RecordStarted(self.project.id@),
            Phase::ObserveAll => super::exchange::Ask::ObserveAll(
                self.running.map_values(|process: RunningProcess| process.handle),
            ),
            Phase::Finished(result) => super::exchange::Ask::Nothing,
        }
    }

    /// The start once a reply came. A reply to something that was not asked
    /// changes nothing.
    pub open spec fn after(self, reply: Reply) -> Starting {
        match (self.phase, reply) {
            (Phase::Processes, Reply::Processes(result)) => match result {
                // A project with no processes is a configuration mistake, and
                // a start that silently succeeds having run nothing is the
                // worst answer to it.
                Ok(processes) => if processes@.len() == 0 {
                    self.failed(crate::lifecycle::Failure::NoProcesses(self.project.id@))
                } else {
                    Starting { processes: processes@, ..self }.at(Phase::Runtime)
                },
                Err(error) => self.failed(crate::lifecycle::Failure::Database(error@)),
            },
            (Phase::Runtime, Reply::Runtime(result)) => match result {
                Ok(Some(runtime)) => {
                    let found = Starting { runtime: Some(runtime), ..self };
                    if runtime.serves_itself() {
                        found.equipped(Toolchain::NotRequired)
                    } else {
                        found.at(Phase::Candidates)
                    }
                },
                Ok(None) => self.failed(
                    crate::lifecycle::Failure::Scaffold("the project has no runtime row"@),
                ),
                Err(error) => self.failed(crate::lifecycle::Failure::Database(error@)),
            },
            (Phase::Candidates, Reply::Candidates(candidates)) => if candidates@.len() == 0 {
                self.equipped(Toolchain::NotRequired)
            } else {
                self.at(Phase::Toolchain)
            },
            (Phase::Toolchain, Reply::Probed(probed)) => match super::settings::resolved(
                self.runtime->0.runtime@,
                probed,
            ) {
                Ok(toolchain) => self.equipped(toolchain),
                Err(failure) => self.failed(failure),
            },
            (Phase::Registered, Reply::Registered(previous)) => self.ending(previous@),
            (Phase::StopPrevious(left), Reply::Stopped(result)) => self.ending(left.drop_last()),
            (Phase::Port, Reply::Port(result)) => match result {
                Ok(()) => self.at(Phase::Environment),
                Err(conflict) => self.failed(
                    crate::lifecycle::Failure::PortConflict(conflict.explanation@),
                ),
            },
            (Phase::Environment, Reply::Environment(result)) => match result {
                Ok(environment) => Starting {
                    env: crate::ordered::settings(environment.values@),
                    ..self
                }.at(Phase::Ports),
                Err(error) => self.failed(crate::lifecycle::Failure::Database(error@)),
            },
            (Phase::Ports, Reply::Ports(result)) => match result {
                Ok(ports) => self.laid_out(ports@),
                Err(error) => self.failed(crate::lifecycle::Failure::Database(error@)),
            },
            (Phase::Building, Reply::Recorded(result)) => match result {
                Ok(()) => self.at(Phase::Prepare(0)),
                Err(error) => self.failed(crate::lifecycle::Failure::Database(error@)),
            },
            (Phase::Prepare(at), Reply::Command(result)) => match result {
                Ok(command) => self.at(Phase::RunStep(at, command@)),
                Err(error) => self.failed(crate::lifecycle::Failure::Command(error@)),
            },
            (Phase::RunStep(at, command), Reply::Stepped(result)) => match result {
                Ok(()) => self.prepared(at + 1),
                Err(error) => self.heard_then(
                    crate::orchestration::Happening::PrepareFailed(
                        self.steps[at].process_index,
                        error@,
                    ),
                    Next::Fail(crate::lifecycle::Failure::Host(error@)),
                ),
            },
            (Phase::Built, Reply::Recorded(result)) => match result {
                Ok(()) => self.begun(),
                Err(error) => self.failed(crate::lifecycle::Failure::Database(error@)),
            },
            (Phase::Apply(effects, at, then_next), reply) => if reply is Done
                || reply is Stopped {
                if at + 1 < effects.len() {
                    self.at(Phase::Apply(effects, at + 1, then_next))
                } else {
                    self.go(then_next)
                }
            } else {
                self
            },
            (Phase::Executable(index), Reply::Executable(executable)) => {
                match super::command::serving(
                    match executable {
                        Ok(program) => Ok(program@),
                        Err(error) => Err(error@),
                    },
                    self.directory_of(index),
                    crate::text::optional(self.runtime->0.publish_dir),
                    super::settings::port_at(self.ports, index),
                    self.env,
                ) {
                    Ok(command) => self.at(Phase::Spawn(index, command)),
                    Err(failure) => self.abandoned(index, failure),
                }
            },
            (Phase::Command(index), Reply::Command(result)) => match result {
                Ok(command) => self.at(Phase::Spawn(index, command@)),
                Err(error) => self.abandoned(index, crate::lifecycle::Failure::Command(error@)),
            },
            (Phase::Spawn(index, command), Reply::Spawned(result)) => match result {
                Ok(handle) => Starting {
                    running: self.running.push(
                        (RunningProcess {
                            process_id: self.processes[index].id,
                            name: self.processes[index].name,
                            handle,
                        }),
                    ),
                    ..self
                }.at(Phase::Register(index, handle)),
                Err(error) => self.abandoned(index, crate::lifecycle::Failure::Host(error@)),
            },
            (Phase::Register(index, handle), Reply::Done) => self.at(Phase::Settle(index, handle)),
            // A process that did not survive its settle window is gone for
            // good; what that means for its siblings is the machine's to say.
            (Phase::Settle(index, handle), Reply::Observed(observed)) => if observed.status
                != HostStatus::Running {
                self.heard(crate::orchestration::Happening::Exited(index, true))
            } else if self.processes[index].checked() {
                self.at(Phase::Poll(index, handle))
            } else {
                self.heard(crate::orchestration::Happening::Settled(index))
            },
            (Phase::Poll(index, handle), Reply::Polled { health, status, waited_ms }) => {
                match super::observed::verdict(
                    health,
                    status,
                    waited_ms as int,
                    super::settings::patience(self.processes[index]),
                ) {
                    Verdict::Passed => self.heard(crate::orchestration::Happening::Healthy(index)),
                    Verdict::GaveUp => self.at(Phase::StopUnhealthy(index, handle)),
                    Verdict::Waiting => self.at(Phase::Sleep(index, handle)),
                }
            },
            (Phase::Sleep(index, handle), Reply::Done) => self.at(Phase::Poll(index, handle)),
            (Phase::StopUnhealthy(index, handle), Reply::Stopped(result)) => self.heard(
                crate::orchestration::Happening::Exited(index, true),
            ),
            (Phase::StopAll(left, failure), Reply::Stopped(result)) => self.stopping(
                left - 1,
                failure,
            ),
            (Phase::RegisterAll, Reply::Done) => if self.machine.status()
                == ProjectStatus::RUNNING {
                self.at(Phase::RecordStarted)
            } else {
                self.at(Phase::ObserveAll)
            },
            (Phase::RecordStarted, Reply::Recorded(result)) => match result {
                Ok(()) => self.at(Phase::ObserveAll),
                Err(error) => self.failed(crate::lifecycle::Failure::Database(error@)),
            },
            (Phase::ObserveAll, Reply::Observations(seen)) => if seen@.len()
                == self.running.len() {
                self.at(
                    Phase::Finished(
                        Ok(
                            super::observed::overall(
                                self.machine.status(),
                                self.running,
                                seen@,
                            ),
                        ),
                    ),
                )
            } else {
                self
            },
            _ => self,
        }
    }
}

/// What a start has found out so far.
#[derive(Debug)]
struct Kit {
    project: ProjectRecord,
    directory: String,
    processes: Vec<ProcessRecord>,
    runtime: Option<RuntimeRecord>,
    toolchain: Toolchain,
    environment: Environment,
    ports: Vec<Option<u16>>,
    steps: Vec<PrepareStep>,
    machine: Machine,
    running: Vec<RunningProcess>,
}

/// An exit code as the machine takes it, where it fits.
fn exit_code(code: Option<i64>) -> (fits: Option<i32>)
    ensures
        fits == match code {
            Some(code) => if i32::MIN <= code <= i32::MAX {
                Some(code as i32)
            } else {
                None
            },
            None => None,
        },
{
    match code {
        Some(code) => if -0x8000_0000 <= code && code <= 0x7fff_ffff {
            Some(code as i32)
        } else {
            None
        },
        None => None,
    }
}

/// The handles of the processes, in their order.
fn handles_of(running: &Vec<RunningProcess>) -> (handles: Vec<u64>)
    ensures
        handles@ == running@.map_values(|process: RunningProcess| process.handle),
{
    let mut handles: Vec<u64> = Vec::new();
    let ghost all = running@.map_values(|process: RunningProcess| process.handle);
    let mut index: usize = 0;
    while index < running.len()
        invariant
            index <= running@.len(),
            all == running@.map_values(|process: RunningProcess| process.handle),
            handles@ == all.take(index as int),
        decreases running@.len() - index,
    {
        handles.push(running[index].handle);
        assert(handles@ =~= all.take(index + 1));
        index += 1;
    }
    assert(all.take(index as int) =~= all);
    handles
}

/// A start under way.
#[derive(Debug)]
pub struct StartRun {
    kit: Kit,
    stage: Stage,
}

impl Kit {
    /// A start with what has been found out so far, in the given phase.
    closed spec fn in_phase(self, phase: Phase) -> Starting {
        Starting {
            project: self.project,
            directory: self.directory@,
            processes: self.processes@,
            runtime: self.runtime,
            toolchain: self.toolchain,
            env: crate::ordered::settings(self.environment.values@),
            ports: self.ports@,
            steps: super::prepare::preparations(self.steps@),
            machine: self.machine@,
            running: self.running@,
            phase,
        }
    }

    /// The same start with no phase to speak of.
    closed spec fn so_far(self) -> Starting {
        self.in_phase(Phase::Processes)
    }

    fn at(self, stage: Stage) -> (run: StartRun)
        requires
            self.in_phase(stage@).wf(),
        ensures
            run@ == self.in_phase(stage@),
    {
        StartRun { kit: self, stage }
    }

    fn failed(self, error: LifecycleError) -> (run: StartRun)
        ensures
            run@ == self.so_far().failed(error@),
    {
        self.at(Stage::Finished(Err(error)))
    }

    fn stopping(self, left: usize, error: LifecycleError) -> (run: StartRun)
        requires
            self.runtime is Some,
            left <= self.running@.len(),
        ensures
            run@ == self.so_far().stopping(left as int, error@),
    {
        if left == 0 {
            self.failed(error)
        } else {
            self.at(Stage::StopAll(left, error))
        }
    }

    fn go(self, then_next: Then) -> (run: StartRun)
        requires
            self.runtime is Some,
        ensures
            run@ == self.so_far().go(then_next@),
    {
        match then_next {
            Then::Start(index) => {
                if index < self.processes.len() {
                    let serves_itself = match &self.runtime {
                        Some(runtime) => runtime.is_static(),
                        None => false,
                    };
                    if serves_itself {
                        self.at(Stage::Executable(index))
                    } else {
                        self.at(Stage::Command(index))
                    }
                } else {
                    self.at(Stage::RegisterAll)
                }
            },
            Then::Rest => self.at(Stage::RegisterAll),
            Then::Fail(error) => self.failed(error),
            Then::Abandon(error) => {
                let left = self.running.len();
                self.stopping(left, error)
            },
        }
    }

    fn applying(self, actions: Vec<crate::orchestration::Action>, then_next: Then) -> (run: StartRun)
        requires
            self.runtime is Some,
        ensures
            run@ == self.so_far().applying(
                    crate::orchestration::acts(actions@),
                    then_next@,
                ),
    {
        let effects = apply(&self.processes, &actions, &self.running);
        assert(super::exchange::deeds(effects@).len() == effects@.len());
        if effects.len() == 0 {
            self.go(then_next)
        } else {
            self.at(Stage::Apply(effects, 0, then_next))
        }
    }

    /// Tell the machine of an event, and go on as told.
    fn hear_then(self, event: Event, then_next: Then) -> (run: StartRun)
        requires
            self.runtime is Some,
        ensures
            run@ == self.so_far().heard_then(event@, then_next@),
    {
        let mut kit = self;
        let actions = kit.machine.handle(event);
        kit.applying(actions, then_next)
    }

    /// The process at an index could not be started: what its siblings take
    /// is the machine's to say, and none of them is left running.
    fn abandon(self, index: usize, error: LifecycleError) -> (run: StartRun)
        requires
            self.runtime is Some,
        ensures
            run@ == self.so_far().abandoned(index as int, error@),
    {
        let reason = error.message();
        self.hear_then(Event::PrepareFailed { index, reason }, Then::Abandon(error))
    }

    /// Tell the machine of an event.
    fn hear(self, event: Event) -> (run: StartRun)
        requires
            self.runtime is Some,
        ensures
            run@ == self.so_far().heard(event@),
    {
        let mut kit = self;
        let actions = kit.machine.handle(event);
        let then_next = match find_spawn(&actions) {
            Some(index) => Then::Start(index),
            None => Then::Rest,
        };
        kit.applying(actions, then_next)
    }

    /// Everything is prepared: the machine begins.
    fn begin(self) -> (run: StartRun)
        requires
            self.runtime is Some,
        ensures
            run@ == self.so_far().begun(),
    {
        let mut kit = self;
        let actions = kit.machine.start();
        let then_next = match find_spawn(&actions) {
            Some(index) => Then::Start(index),
            None => Then::Rest,
        };
        kit.applying(actions, then_next)
    }

    fn prepared(self, at: usize) -> (run: StartRun)
        requires
            self.runtime is Some,
        ensures
            run@ == self.so_far().prepared(at as int),
    {
        if at < self.steps.len() {
            self.at(Stage::Prepare(at))
        } else {
            self.at(Stage::Built)
        }
    }

    fn runtime_word(&self) -> (word: String)
        requires
            self.runtime is Some,
        ensures
            word@ == self.runtime->0.runtime@,
    {
        match &self.runtime {
            Some(runtime) => runtime.runtime.clone(),
            None => String::new(),
        }
    }

    /// The command that serves a static site is made here.
    fn serve(self, index: usize, executable: Result<String, String>) -> (run: StartRun)
        requires
            self.runtime is Some,
            index < self.processes@.len(),
        ensures
            run@ == self.in_phase(Phase::Executable(index as int)).after(
                Reply::Executable(executable),
            ),
    {
        let directory = joined(
            self.directory.as_str(),
            self.processes[index].working_dir.as_str(),
        );
        let publish_dir = match &self.runtime {
            Some(runtime) => match &runtime.publish_dir {
                Some(publish_dir) => Some(publish_dir.as_str()),
                None => None,
            },
            None => None,
        };
        let found = match &executable {
            Ok(program) => Ok(program.as_str()),
            Err(error) => Err(error.as_str()),
        };
        let port = port_at_index(&self.ports, index);
        match static_command(found, &directory, publish_dir, port, &self.environment) {
            Ok(command) => self.at(Stage::Spawn(index, command)),
            Err(error) => self.abandon(index, error),
        }
    }

    fn equipped(self, toolchain: Toolchain) -> (run: StartRun)
        requires
            self.runtime is Some,
        ensures
            run@ == self.so_far().equipped(toolchain),
    {
        Kit { toolchain, ..self }.at(Stage::Registered)
    }

    fn ending(self, left: Vec<RunningProcess>) -> (run: StartRun)
        requires
            self.runtime is Some,
        ensures
            run@ == self.so_far().ending(left@),
    {
        if left.len() == 0 {
            self.at(Stage::Port)
        } else {
            self.at(Stage::StopPrevious(left))
        }
    }

    fn lay_out(self, ports: Vec<crate::records::PortRecord>) -> (run: StartRun)
        requires
            self.runtime is Some,
        ensures
            run@ == self.so_far().laid_out(ports@),
    {
        let allocated = port_by_process(&ports, &self.processes);
        let steps = prepare_steps(self.processes.as_slice());
        let mut shape: Vec<Process> = Vec::new();
        let mut index: usize = 0;
        while index < self.processes.len()
            invariant
                index <= self.processes@.len(),
                shape@.map_values(|process: Process| process.has_health_check) == checks_of(
                    self.processes@,
                ).take(index as int),
            decreases self.processes@.len() - index,
        {
            let ghost earlier = shape@.map_values(|process: Process| process.has_health_check);
            shape.push(Process { has_health_check: self.processes[index].has_health_check() });
            assert(shape@.map_values(|process: Process| process.has_health_check) =~= earlier.push(
                shape@.last().has_health_check,
            ));
            assert(checks_of(self.processes@).take(index + 1) =~= checks_of(self.processes@).take(
                index as int,
            ).push(checks_of(self.processes@)[index as int]));
            index += 1;
        }
        assert(checks_of(self.processes@).take(index as int) =~= checks_of(self.processes@));
        assert(shape@.len() == shape@.map_values(
            |process: Process| process.has_health_check,
        ).len());
        let machine = Machine::new(shape);
        assert(machine@ == crate::orchestration::Project {
            checks: checks_of(self.processes@),
            states: Seq::new(
                self.processes@.len(),
                |i: int| crate::orchestration::ProcessState::Stopped,
            ),
            stopping: false,
        });
        let kit = Kit { ports: allocated, steps, machine, ..self };
        if kit.steps.len() == 0 {
            kit.begin()
        } else {
            kit.at(Stage::Building)
        }
    }
}

impl View for StartRun {
    type V = Starting;

    closed spec fn view(&self) -> Starting {
        self.kit.in_phase(self.stage@)
    }
}

impl StartRun {
    #[verifier::type_invariant]
    spec fn well_formed(self) -> bool {
        self@.wf()
    }

    /// A start of a project, with nothing found out yet.
    pub fn new(context: StartContext) -> (run: StartRun)
        ensures
            run@.project == context.project,
            run@.directory == context.directory@,
            run@.phase == Phase::Processes,
            run@.running == Seq::<RunningProcess>::empty(),
            run@.wf(),
    {
        let StartContext { project, directory } = context;
        Kit {
            project,
            directory,
            processes: Vec::new(),
            runtime: None,
            toolchain: Toolchain::NotRequired,
            environment: Environment::empty(),
            ports: Vec::new(),
            steps: Vec::new(),
            machine: Machine::new(Vec::new()),
            running: Vec::new(),
        }.at(Stage::Processes)
    }

    /// What is to be done or looked up next.
    pub fn request(&self) -> (request: Request)
        ensures
            request@ == self@.request(),
    {
        proof {
            use_type_invariant(self);
        }
        let kit = &self.kit;
        match &self.stage {
            Stage::Processes => Request::ListProcesses { project_id: kit.project.id.clone() },
            Stage::Runtime => Request::FindRuntime { project_id: kit.project.id.clone() },
            Stage::Candidates => Request::ListCandidates { runtime: kit.runtime_word() },
            Stage::Toolchain => Request::Probe { runtime: kit.runtime_word() },
            Stage::Registered => Request::TakeRegistered { project_id: kit.project.id.clone() },
            Stage::StopPrevious(left) => Request::Stop { handle: left[left.len() - 1].handle },
            Stage::Port => Request::CheckPort { project_id: kit.project.id.clone() },
            Stage::Environment => Request::ResolveEnvironment {
                project_id: kit.project.id.clone(),
            },
            Stage::Ports => Request::ListPorts { project_id: kit.project.id.clone() },
            Stage::Building => Request::Announce {
                project_id: kit.project.id.clone(),
                status: crate::records::ProjectStatus::Building,
            },
            Stage::Prepare(at) => {
                let step = &kit.steps[*at];
                assert(step@ == super::prepare::preparations(kit.steps@)[*at as int]);
                Request::BuildCommand {
                    runtime: kit.runtime_word(),
                    text: step.command.clone(),
                    directory: joined(kit.directory.as_str(), step.working_dir.as_str()),
                    toolchain: kit.toolchain.clone(),
                    port: port_at_index(&kit.ports, step.process_index),
                    env: kit.environment.values.duplicate(),
                }
            },
            Stage::RunStep(at, command) => {
                assert(kit.steps@[*at as int]@ == super::prepare::preparations(
                    kit.steps@,
                )[*at as int]);
                Request::RunStep { phase: kit.steps[*at].phase, command: command.duplicate() }
            },
            Stage::Built => Request::Announce {
                project_id: kit.project.id.clone(),
                status: crate::records::ProjectStatus::Starting,
            },
            Stage::Apply(effects, at, _) => {
                assert(effects@[*at as int]@ == super::exchange::deeds(effects@)[*at as int]);
                match &effects[*at] {
                    Effect::Record { process_id, state, reason, handle } => {
                        Request::RecordStatus {
                            process_id: process_id.clone(),
                            state: *state,
                            reason: copied(reason),
                            handle: *handle,
                        }
                    },
                    Effect::Stop { handle } => Request::Stop { handle: *handle },
                }
            },
            Stage::Executable(_) => Request::FindExecutable,
            Stage::Command(index) => {
                let process = &kit.processes[*index];
                Request::BuildCommand {
                    runtime: kit.runtime_word(),
                    text: process.command.clone(),
                    directory: joined(
                        kit.directory.as_str(),
                        process.working_dir.as_str(),
                    ),
                    toolchain: kit.toolchain.clone(),
                    port: port_at_index(&kit.ports, *index),
                    env: kit.environment.values.duplicate(),
                }
            },
            Stage::Spawn(index, command) => Request::Spawn {
                command: command.duplicate(),
                health: health_policy(&kit.processes[*index], port_at_index(&kit.ports, *index)),
                restart_on_crash: kit.project.restarts_on_crash(),
            },
            Stage::Register(_, _) => Request::Register {
                project_id: kit.project.id.clone(),
                running: duplicate(&kit.running),
            },
            Stage::Settle(_, handle) => Request::Observe { handle: *handle },
            Stage::Poll(_, handle) => Request::Poll { handle: *handle },
            Stage::Sleep(_, _) => Request::Sleep { ms: 250 },
            Stage::StopUnhealthy(_, handle) => Request::Stop { handle: *handle },
            Stage::StopAll(left, _) => Request::Stop { handle: kit.running[*left - 1].handle },
            Stage::RegisterAll => Request::Register {
                project_id: kit.project.id.clone(),
                running: duplicate(&kit.running),
            },
            Stage::RecordStarted => Request::RecordStarted { project_id: kit.project.id.clone() },
            Stage::ObserveAll => Request::ObserveAll { handles: handles_of(&kit.running) },
            Stage::Finished(_) => Request::Nothing,
        }
    }

    /// Take what came of the request, and decide what follows.
    pub fn step(self, reply: Reply) -> (next: StartRun)
        ensures
            next@ == self@.after(reply),
    {
        proof {
            use_type_invariant(&self);
        }
        let StartRun { kit, stage } = self;
        match stage {
            Stage::Processes => match reply {
                Reply::Processes(Ok(processes)) => if processes.len() == 0 {
                    let id = kit.project.id.clone();
                    kit.failed(LifecycleError::NoProcesses(id))
                } else {
                    Kit { processes, ..kit }.at(Stage::Runtime)
                },
                Reply::Processes(Err(error)) => kit.failed(LifecycleError::Database(error)),
                _ => kit.at(Stage::Processes),
            },
            Stage::Runtime => match reply {
                Reply::Runtime(Ok(Some(runtime))) => {
                    let serves_itself = runtime.is_static();
                    let kit = Kit { runtime: Some(runtime), ..kit };
                    // A static site is served by this application and has no
                    // toolchain to find, so the probe is skipped rather than
                    // answered hopefully.
                    if serves_itself {
                        kit.equipped(Toolchain::NotRequired)
                    } else {
                        kit.at(Stage::Candidates)
                    }
                },
                Reply::Runtime(Ok(None)) => kit.failed(
                    LifecycleError::Scaffold("the project has no runtime row".to_owned()),
                ),
                Reply::Runtime(Err(error)) => kit.failed(LifecycleError::Database(error)),
                _ => kit.at(Stage::Runtime),
            },
            Stage::Candidates => match reply {
                // A runtime with no candidate executable cannot be answered by
                // finding one. What checks such a project is the start
                // command's own program, by name.
                Reply::Candidates(candidates) => if candidates.len() == 0 {
                    kit.equipped(Toolchain::NotRequired)
                } else {
                    kit.at(Stage::Toolchain)
                },
                _ => kit.at(Stage::Candidates),
            },
            Stage::Toolchain => match reply {
                Reply::Probed(probed) => {
                    let runtime = kit.runtime_word();
                    match resolve_toolchain(runtime.as_str(), probed) {
                        Ok(toolchain) => kit.equipped(toolchain),
                        Err(error) => kit.failed(error),
                    }
                },
                _ => kit.at(Stage::Toolchain),
            },
            Stage::Registered => match reply {
                // Anything already registered is a supervisor from a previous
                // run. Ending it first is what stops a restart from leaving two
                // processes fighting over one port.
                Reply::Registered(previous) => kit.ending(previous),
                _ => kit.at(Stage::Registered),
            },
            Stage::StopPrevious(left) => match reply {
                Reply::Stopped(_) => {
                    let mut left = left;
                    let ghost before = left@;
                    left.pop();
                    assert(left@ =~= before.drop_last());
                    kit.ending(left)
                },
                _ => kit.at(Stage::StopPrevious(left)),
            },
            Stage::Port => match reply {
                Reply::Port(Ok(_)) => kit.at(Stage::Environment),
                Reply::Port(Err(conflict)) => kit.failed(LifecycleError::PortConflict(conflict)),
                _ => kit.at(Stage::Port),
            },
            Stage::Environment => match reply {
                // Used for install and build as well as for the start: an
                // install that needs a private registry token needs it at
                // install time, not only at run time.
                Reply::Environment(Ok(environment)) => Kit { environment, ..kit }.at(Stage::Ports),
                Reply::Environment(Err(error)) => kit.failed(LifecycleError::Database(error)),
                _ => kit.at(Stage::Environment),
            },
            Stage::Ports => match reply {
                Reply::Ports(Ok(ports)) => kit.lay_out(ports),
                Reply::Ports(Err(error)) => kit.failed(LifecycleError::Database(error)),
                _ => kit.at(Stage::Ports),
            },
            Stage::Building => match reply {
                Reply::Recorded(Ok(_)) => kit.at(Stage::Prepare(0)),
                Reply::Recorded(Err(error)) => kit.failed(LifecycleError::Database(error)),
                _ => kit.at(Stage::Building),
            },
            Stage::Prepare(at) => match reply {
                Reply::Command(Ok(command)) => kit.at(Stage::RunStep(at, command)),
                Reply::Command(Err(error)) => kit.failed(LifecycleError::Command(error)),
                _ => kit.at(Stage::Prepare(at)),
            },
            Stage::RunStep(at, command) => match reply {
                Reply::Stepped(Ok(_)) => {
                    let count: usize = kit.steps.len();
                    assert(at < count);
                    kit.prepared(at + 1)
                },
                Reply::Stepped(Err(error)) => {
                    assert(kit.steps@[at as int]@ == super::prepare::preparations(
                        kit.steps@,
                    )[at as int]);
                    let index = kit.steps[at].process_index;
                    let reason = error.clone();
                    kit.hear_then(
                        Event::PrepareFailed { index, reason },
                        Then::Fail(LifecycleError::Host(error)),
                    )
                },
                _ => kit.at(Stage::RunStep(at, command)),
            },
            Stage::Built => match reply {
                Reply::Recorded(Ok(_)) => kit.begin(),
                Reply::Recorded(Err(error)) => kit.failed(LifecycleError::Database(error)),
                _ => kit.at(Stage::Built),
            },
            Stage::Apply(effects, at, then_next) => match reply {
                Reply::Done | Reply::Stopped(_) => {
                    assert(super::exchange::deeds(effects@).len() == effects@.len());
                    let count: usize = effects.len();
                    if at + 1 < count {
                        kit.at(Stage::Apply(effects, at + 1, then_next))
                    } else {
                        kit.go(then_next)
                    }
                },
                _ => kit.at(Stage::Apply(effects, at, then_next)),
            },
            Stage::Executable(index) => match reply {
                Reply::Executable(executable) => kit.serve(index, executable),
                _ => kit.at(Stage::Executable(index)),
            },
            Stage::Command(index) => match reply {
                Reply::Command(Ok(command)) => kit.at(Stage::Spawn(index, command)),
                Reply::Command(Err(error)) => kit.abandon(index, LifecycleError::Command(error)),
                _ => kit.at(Stage::Command(index)),
            },
            Stage::Spawn(index, command) => match reply {
                Reply::Spawned(Ok(handle)) => {
                    let mut kit = kit;
                    let process = RunningProcess {
                        process_id: kit.processes[index].id.clone(),
                        name: kit.processes[index].name.clone(),
                        handle,
                    };
                    kit.running.push(process);
                    kit.at(Stage::Register(index, handle))
                },
                Reply::Spawned(Err(error)) => kit.abandon(index, LifecycleError::Host(error)),
                _ => kit.at(Stage::Spawn(index, command)),
            },
            Stage::Register(index, handle) => match reply {
                Reply::Done => kit.at(Stage::Settle(index, handle)),
                _ => kit.at(Stage::Register(index, handle)),
            },
            Stage::Settle(index, handle) => match reply {
                Reply::Observed(observed) => if observed.status != HostStatus::Running {
                    // The supervisor already has the child's own words; the
                    // machine decides what that means for the siblings.
                    kit.hear(
                        Event::Exited { index, code: exit_code(observed.exit_code), terminal: true },
                    )
                } else if kit.processes[index].has_health_check() {
                    kit.at(Stage::Poll(index, handle))
                } else {
                    kit.hear(Event::Settled { index })
                },
                _ => kit.at(Stage::Settle(index, handle)),
            },
            Stage::Poll(index, handle) => match reply {
                Reply::Polled { health, status, waited_ms } => match await_health(
                    &health,
                    status,
                    waited_ms,
                    &kit.processes[index],
                ) {
                    Verdict::Passed => kit.hear(Event::Healthy { index }),
                    // Stopped first. The machine reads an exit as "this one is
                    // already dead" and spares it when it tears the siblings
                    // down, and a process that failed its health check is
                    // still running and still holding its port.
                    Verdict::GaveUp => kit.at(Stage::StopUnhealthy(index, handle)),
                    Verdict::Waiting => kit.at(Stage::Sleep(index, handle)),
                },
                _ => kit.at(Stage::Poll(index, handle)),
            },
            Stage::Sleep(index, handle) => match reply {
                Reply::Done => kit.at(Stage::Poll(index, handle)),
                _ => kit.at(Stage::Sleep(index, handle)),
            },
            Stage::StopUnhealthy(index, handle) => match reply {
                Reply::Stopped(_) => kit.hear(
                    Event::Exited { index, code: None, terminal: true },
                ),
                _ => kit.at(Stage::StopUnhealthy(index, handle)),
            },
            Stage::StopAll(left, error) => match reply {
                Reply::Stopped(_) => kit.stopping(left - 1, error),
                _ => kit.at(Stage::StopAll(left, error)),
            },
            Stage::RegisterAll => match reply {
                Reply::Done => if kit.machine.project_status() == ProjectStatus::RUNNING {
                    kit.at(Stage::RecordStarted)
                } else {
                    kit.at(Stage::ObserveAll)
                },
                _ => kit.at(Stage::RegisterAll),
            },
            Stage::RecordStarted => match reply {
                Reply::Recorded(Ok(_)) => kit.at(Stage::ObserveAll),
                Reply::Recorded(Err(error)) => kit.failed(LifecycleError::Database(error)),
                _ => kit.at(Stage::RecordStarted),
            },
            Stage::ObserveAll => match reply {
                Reply::Observations(seen) => if seen.len() == kit.running.len() {
                    let observed = observed_for(
                        kit.machine.project_status(),
                        &kit.running,
                        &seen,
                    );
                    kit.at(Stage::Finished(Ok(observed)))
                } else {
                    kit.at(Stage::ObserveAll)
                },
                _ => kit.at(Stage::ObserveAll),
            },
            Stage::Finished(result) => kit.at(Stage::Finished(result)),
        }
    }

    /// Whether nothing is left to do.
    pub fn is_finished(&self) -> (finished: bool)
        ensures
            finished == (self@.phase is Finished),
    {
        match &self.stage {
            Stage::Finished(_) => true,
            _ => false,
        }
    }

    /// What the start came to, once nothing is left to do.
    pub fn outcome(self) -> (outcome: Option<Result<Observed, LifecycleError>>)
        ensures
            outcome is Some == (self@.phase is Finished),
            outcome matches Some(result) ==> self@.phase == Phase::Finished(came_to(result)),
    {
        match self.stage {
            Stage::Finished(result) => Some(result),
            _ => None,
        }
    }
}

} // verus!
