//! What a start remembers, what it hands on, and where each reply takes it.

use super::{Next, Phase, Starting};
use crate::lifecycle::Failure;
use crate::orchestration::{Happening, ProcessState, ProjectStatus};
use crate::orchestrator::exchange::{Ask, Deed, Reply};
use crate::orchestrator::observed::HostStatus;
use crate::orchestrator::settings::{Probed, Toolchain};
use vstd::prelude::*;

verus! {

/// The same start in another phase.
pub open spec fn moved_to(start: Starting, phase: Phase) -> Starting {
    Starting { phase, ..start }
}

/// The same start with its machine elsewhere.
pub open spec fn driving(start: Starting, machine: crate::orchestration::Project) -> Starting {
    Starting { machine, ..start }
}

/// What a start has found out does not depend on the actions it carries out.
proof fn hearing_changes_the_machine_alone(start: Starting, event: Happening, then_next: Next)
    ensures
        start.heard_then(event, then_next).project == start.project,
        start.heard_then(event, then_next).directory == start.directory,
        start.heard_then(event, then_next).processes == start.processes,
        start.heard_then(event, then_next).runtime == start.runtime,
        start.heard_then(event, then_next).toolchain == start.toolchain,
        start.heard_then(event, then_next).env == start.env,
        start.heard_then(event, then_next).ports == start.ports,
        start.heard_then(event, then_next).steps == start.steps,
        start.heard_then(event, then_next).running == start.running,
        start.heard_then(event, then_next).machine == start.machine.after(event),
{
}

proof fn beginning_changes_the_machine_alone(start: Starting)
    ensures
        start.begun().project == start.project,
        start.begun().directory == start.directory,
        start.begun().processes == start.processes,
        start.begun().runtime == start.runtime,
        start.begun().toolchain == start.toolchain,
        start.begun().env == start.env,
        start.begun().ports == start.ports,
        start.begun().steps == start.steps,
        start.begun().running == start.running,
        start.begun().machine == start.machine.started(),
{
}

/// What changes with a reply, and when: everything else a start has found out
/// stays as it was found.
#[verifier::spinoff_prover]
#[verifier::rlimit(60)]
proof fn a_reply_teaches_one_thing(start: Starting, reply: Reply)
    ensures
        start.after(reply).project == start.project,
        start.after(reply).directory == start.directory,
        !(start.phase is Processes) ==> start.after(reply).processes == start.processes,
        !(start.phase is Runtime) ==> start.after(reply).runtime == start.runtime,
        !(start.phase is Runtime) && !(start.phase is Candidates) && !(start.phase is Toolchain)
            ==> start.after(reply).toolchain == start.toolchain,
        !(start.phase is Environment) ==> start.after(reply).env == start.env,
        !(start.phase is Ports) ==> start.after(reply).ports == start.ports && start.after(
            reply,
        ).steps == start.steps,
        !(start.phase is Spawn && (reply matches Reply::Spawned(Ok(_)))) ==> start.after(
            reply,
        ).running == start.running,
{
    match (start.phase, reply) {
        (Phase::Ports, Reply::Ports(Ok(rows))) => {
            let laid = Starting {
                ports: crate::orchestrator::settings::ports_of(rows@, start.processes),
                steps: crate::orchestrator::prepare::needed(start.processes),
                machine: crate::orchestration::Project {
                    checks: super::checks_of(start.processes),
                    states: Seq::new(start.processes.len(), |i: int| ProcessState::Stopped),
                    stopping: false,
                },
                ..start
            };
            beginning_changes_the_machine_alone(laid);
        },
        (Phase::RunStep(at, command), Reply::Stepped(Err(error))) => {
            hearing_changes_the_machine_alone(
                start,
                Happening::PrepareFailed(start.steps[at].process_index, error@),
                Next::Fail(Failure::Host(error@)),
            );
        },
        (Phase::Built, _) => {
            beginning_changes_the_machine_alone(start);
        },
        (Phase::Executable(index), _) | (Phase::Command(index), _) | (Phase::Spawn(index, _), _)
            => {
            if super::teardown::refusal(start, reply) is Some {
                let failure = super::teardown::refusal(start, reply)->0;
                hearing_changes_the_machine_alone(
                    start,
                    Happening::PrepareFailed(index, failure.text()),
                    Next::Abandon(failure),
                );
            }
        },
        (Phase::Settle(index, handle), _) => {
            let dead = Happening::Exited(index, true);
            let up = Happening::Settled(index);
            hearing_changes_the_machine_alone(
                start,
                dead,
                Starting::next_of(start.machine.acts(dead)),
            );
            hearing_changes_the_machine_alone(
                start,
                up,
                Starting::next_of(start.machine.acts(up)),
            );
        },
        (Phase::Poll(index, handle), _) => {
            let up = Happening::Healthy(index);
            hearing_changes_the_machine_alone(
                start,
                up,
                Starting::next_of(start.machine.acts(up)),
            );
        },
        (Phase::StopUnhealthy(index, handle), _) => {
            let dead = Happening::Exited(index, true);
            hearing_changes_the_machine_alone(
                start,
                dead,
                Starting::next_of(start.machine.acts(dead)),
            );
        },
        _ => {},
    }
}

/// A start never forgets whose it is or where it runs.
pub proof fn law_a_start_stays_with_its_project(start: Starting, reply: Reply)
    ensures
        start.after(reply).project == start.project,
        start.after(reply).directory == start.directory,
{
    a_reply_teaches_one_thing(start, reply);
}

/// The rows are those that were listed, all of them and in their order, and
/// they stay so.
pub proof fn law_the_rows_are_those_listed(start: Starting, reply: Reply)
    ensures
        start.phase is Processes && (reply matches Reply::Processes(Ok(rows))) && (
        reply->Processes_0->Ok_0)@.len() > 0 ==> start.after(reply).processes == (
        reply->Processes_0->Ok_0)@ && start.after(reply).phase is Runtime,
        !(start.phase is Processes) ==> start.after(reply).processes == start.processes,
{
    a_reply_teaches_one_thing(start, reply);
}

/// What the user configured is learned from the reply that carries it, all of
/// it and under the same names. It is kept until the start is over, and every
/// command, of a step and of a process alike, is made with it.
pub proof fn law_everything_runs_with_what_was_configured(start: Starting, reply: Reply)
    ensures
        start.phase is Environment && (reply matches Reply::Environment(Ok(found))) ==> {
            let values = (reply->Environment_0->Ok_0).values@;
            let env = start.after(reply).env;
            &&& start.after(reply).phase is Ports
            &&& env.len() == values.len()
            &&& forall|i: int|
                0 <= i < values.len() ==> (#[trigger] env[i]).0 == values[i].0 && env[i].1
                    == values[i].1@
        },
        !(start.phase is Environment) ==> start.after(reply).env == start.env,
        start.phase is Prepare || start.phase is Command ==> start.request() is BuildCommand
            && start.request()->BuildCommand_env == start.env,
        start.request() is BuildCommand ==> start.request()->BuildCommand_env == start.env,
{
    a_reply_teaches_one_thing(start, reply);
}

/// The runtime is the one that was found, its toolchain the one that was found
/// for it, and every command is made with both. A static site needs no
/// toolchain, and neither does a runtime no executable would do for.
pub proof fn law_everything_runs_with_the_toolchain(start: Starting, reply: Reply)
    ensures
        start.phase is Runtime && (reply matches Reply::Runtime(Ok(Some(row)))) ==> {
            let row = reply->Runtime_0->Ok_0->0;
            &&& start.after(reply).runtime == Some(row)
            &&& row.runtime@ == "STATIC"@ ==> start.after(reply).phase is Registered
                && start.after(reply).toolchain == Toolchain::NotRequired
            &&& row.runtime@ != "STATIC"@ ==> start.after(reply).phase is Candidates
                && start.after(reply).toolchain == start.toolchain
        },
        start.phase is Candidates && (reply matches Reply::Candidates(found)) ==> if (
        reply->Candidates_0)@.len() == 0 {
            start.after(reply).phase is Registered && start.after(reply).toolchain
                == Toolchain::NotRequired
        } else {
            start.after(reply).phase is Toolchain && start.after(reply).toolchain
                == start.toolchain
        },
        start.phase is Toolchain && (reply matches Reply::Probed(Probed::Found(program)))
            ==> start.after(reply).phase is Registered && start.after(reply).toolchain
            == Toolchain::Found(reply->Probed_0->Found_0),
        start.phase is Toolchain && reply == Reply::Probed(Probed::NotRequired) ==> start.after(
            reply,
        ).phase is Registered && start.after(reply).toolchain == Toolchain::NotRequired,
        !(start.phase is Runtime) ==> start.after(reply).runtime == start.runtime,
        !(start.phase is Runtime) && !(start.phase is Candidates) && !(start.phase is Toolchain)
            ==> start.after(reply).toolchain == start.toolchain,
        start.request() is BuildCommand ==> start.request()->BuildCommand_toolchain
            == start.toolchain && start.request()->BuildCommand_runtime
            == start.runtime->0.runtime@,
        start.phase is Candidates ==> start.request() == Ask::ListCandidates(
            start.runtime->0.runtime@,
        ),
        start.phase is Toolchain ==> start.request() == Ask::Probe(start.runtime->0.runtime@),
{
    a_reply_teaches_one_thing(start, reply);
}

/// A missing toolchain refuses a start, by the runtime's name and with
/// everything that was looked for.
pub proof fn law_a_start_names_the_missing_toolchain(start: Starting, looked_for: Vec<String>)
    requires
        start.phase is Toolchain,
    ensures
        ({
            let after = start.after(Reply::Probed(Probed::Missing { looked_for }));
            let failure = after.phase->Finished_0->Err_0;
            &&& after.phase is Finished
            &&& after.phase->Finished_0 is Err
            &&& failure is ToolchainMissing
            &&& failure->ToolchainMissing_0 == start.runtime->0.runtime@
            &&& failure->ToolchainMissing_1.len() == looked_for@.len()
            &&& forall|i: int|
                0 <= i < looked_for@.len() ==> #[trigger] failure->ToolchainMissing_1[i]
                    == looked_for@[i]@
        }),
{
}

/// The ports are those of the rows, position by position, they stay so, and
/// what is made for a process is made with the port of its position: its
/// command, its health check and the preparation it declared.
pub proof fn law_everything_has_the_port_of_its_process(start: Starting, reply: Reply)
    ensures
        start.phase is Ports && (reply matches Reply::Ports(Ok(rows))) ==> {
            let ports = start.after(reply).ports;
            &&& ports.len() == start.processes.len()
            &&& forall|i: int|
                0 <= i < start.processes.len() ==> #[trigger] ports[i]
                    == crate::orchestrator::settings::port_of(
                    (reply->Ports_0->Ok_0)@,
                    start.processes[i].id@,
                    i,
                )
        },
        !(start.phase is Ports) ==> start.after(reply).ports == start.ports,
        start.phase matches Phase::Command(index) ==> (0 <= start.phase->Command_0
            < start.ports.len() ==> start.request()->BuildCommand_port
            == start.ports[start.phase->Command_0]),
        start.phase matches Phase::Spawn(index, command) ==> (0 <= start.phase->Spawn_0
            < start.ports.len() ==> start.request()->Spawn_health
            == crate::orchestrator::exchange::asked_of(
            start.processes[start.phase->Spawn_0],
            start.ports[start.phase->Spawn_0],
        )),
        start.phase matches Phase::Prepare(at) ==> (0
            <= start.steps[start.phase->Prepare_0].process_index < start.ports.len()
            ==> start.request()->BuildCommand_port
            == start.ports[start.steps[start.phase->Prepare_0].process_index]),
{
    a_reply_teaches_one_thing(start, reply);
    if start.phase is Ports && reply is Ports && reply->Ports_0 is Ok {
        let rows = (reply->Ports_0->Ok_0)@;
        let laid = Starting {
            ports: crate::orchestrator::settings::ports_of(rows, start.processes),
            steps: crate::orchestrator::prepare::needed(start.processes),
            machine: crate::orchestration::Project {
                checks: super::checks_of(start.processes),
                states: Seq::new(start.processes.len(), |i: int| ProcessState::Stopped),
                stopping: false,
            },
            ..start
        };
        beginning_changes_the_machine_alone(laid);
    }
}

/// The steps are those the rows declare, and they stay so. A step's command is
/// made from its own text in its own directory, and is run under its own name.
pub proof fn law_a_step_is_run_as_declared(start: Starting, reply: Reply)
    ensures
        start.phase is Ports && (reply matches Reply::Ports(Ok(rows))) ==> start.after(reply).steps
            == crate::orchestrator::prepare::needed(start.processes),
        !(start.phase is Ports) ==> start.after(reply).steps == start.steps,
        start.phase matches Phase::Prepare(at) ==> {
            let step = start.steps[start.phase->Prepare_0];
            &&& start.request()->BuildCommand_text == step.command
            &&& start.request()->BuildCommand_directory
                == crate::orchestrator::command::working_directory(
                start.directory,
                step.working_dir,
            )
        },
        start.phase matches Phase::Prepare(at) ==> (reply matches Reply::Command(Ok(command))
            ==> start.after(reply).phase == Phase::RunStep(
            start.phase->Prepare_0,
            (reply->Command_0->Ok_0)@,
        )),
        start.phase matches Phase::RunStep(at, command) ==> start.request() == Ask::RunStep(
            start.steps[start.phase->RunStep_0].phase,
            start.phase->RunStep_1,
        ),
        start.phase matches Phase::RunStep(at, command) ==> (reply matches Reply::Stepped(Ok(_))
            ==> start.after(reply).phase == if start.phase->RunStep_0 + 1 < start.steps.len() {
            Phase::Prepare(start.phase->RunStep_0 + 1)
        } else {
            Phase::Built
        }),
{
    a_reply_teaches_one_thing(start, reply);
    if start.phase is Ports && reply is Ports && reply->Ports_0 is Ok {
        let rows = (reply->Ports_0->Ok_0)@;
        let laid = Starting {
            ports: crate::orchestrator::settings::ports_of(rows, start.processes),
            steps: crate::orchestrator::prepare::needed(start.processes),
            machine: crate::orchestration::Project {
                checks: super::checks_of(start.processes),
                states: Seq::new(start.processes.len(), |i: int| ProcessState::Stopped),
                stopping: false,
            },
            ..start
        };
        beginning_changes_the_machine_alone(laid);
    }
}

/// A process runs the command of its own row in the directory of its own row,
/// a static site is served from there, and a process is tried again after a
/// crash unless the project says `NO`.
pub proof fn law_a_process_runs_its_own_row(start: Starting, reply: Reply)
    ensures
        start.phase matches Phase::Command(index) ==> {
            let row = start.processes[start.phase->Command_0];
            &&& start.request() is BuildCommand
            &&& start.request()->BuildCommand_text == row.command@
            &&& start.request()->BuildCommand_directory
                == crate::orchestrator::command::working_directory(
                start.directory,
                row.working_dir@,
            )
        },
        start.phase matches Phase::Command(index) ==> (reply matches Reply::Command(Ok(command))
            ==> start.after(reply).phase == Phase::Spawn(
            start.phase->Command_0,
            (reply->Command_0->Ok_0)@,
        )),
        start.phase is Executable ==> start.request() == Ask::FindExecutable,
        start.phase matches Phase::Executable(index) ==> (reply matches Reply::Executable(found)
            ==> {
            let made = crate::orchestrator::command::serving(
                match reply->Executable_0 {
                    Ok(program) => Ok(program@),
                    Err(error) => Err(error@),
                },
                crate::orchestrator::command::working_directory(
                    start.directory,
                    start.processes[start.phase->Executable_0].working_dir@,
                ),
                match start.runtime->0.publish_dir {
                    Some(directory) => Some(directory@),
                    None => None,
                },
                crate::orchestrator::settings::port_at(start.ports, start.phase->Executable_0),
                start.env,
            );
            made is Ok ==> start.after(reply).phase == Phase::Spawn(
                start.phase->Executable_0,
                made->Ok_0,
            )
        }),
        start.phase matches Phase::Spawn(index, command) ==> start.request() is Spawn
            && start.request()->Spawn_command == start.phase->Spawn_1
            && start.request()->Spawn_restart_on_crash == (start.project.restart_policy@ != "NO"@),
{
}

/// A process that was spawned runs under the id and the name of its own row and
/// under the handle it was spawned with, after everything that ran before. It
/// is registered with all of them, and looked at once it is.
pub proof fn law_a_spawned_process_is_registered(start: Starting, reply: Reply)
    ensures
        start.phase matches Phase::Spawn(index, command) ==> (reply matches Reply::Spawned(Ok(
            handle,
        )) ==> {
            let row = start.processes[start.phase->Spawn_0];
            let handle = reply->Spawned_0->Ok_0;
            let after = start.after(reply);
            &&& after.running.len() == start.running.len() + 1
            &&& after.running.drop_last() == start.running
            &&& after.running.last().process_id == row.id
            &&& after.running.last().name == row.name
            &&& after.running.last().handle == handle
            &&& after.phase == Phase::Register(start.phase->Spawn_0, handle)
            &&& after.request() == Ask::Register(start.project.id@, after.running)
        }),
        !(start.phase is Spawn && (reply matches Reply::Spawned(Ok(_)))) ==> start.after(
            reply,
        ).running == start.running,
        start.phase matches Phase::Register(index, handle) ==> (reply is Done ==> start.after(
            reply,
        ).phase == Phase::Settle(start.phase->Register_0, start.phase->Register_1)),
        start.phase matches Phase::Settle(index, handle) ==> start.request() == Ask::Observe(
            start.phase->Settle_1,
        ),
        start.phase matches Phase::Poll(index, handle) ==> start.request() == Ask::Poll(
            start.phase->Poll_1,
        ),
        start.phase is Sleep ==> start.request() == Ask::Sleep(250),
        start.phase matches Phase::StopUnhealthy(index, handle) ==> start.request() == Ask::Stop(
            start.phase->StopUnhealthy_1,
        ),
        start.phase is RegisterAll ==> start.request() == Ask::Register(
            start.project.id@,
            start.running,
        ),
{
    a_reply_teaches_one_thing(start, reply);
    if start.phase is Spawn && reply is Spawned && reply->Spawned_0 is Ok {
        assert(start.after(reply).running.drop_last() =~= start.running);
    }
}

/// The machine hears of a process what was seen of it: that it is gone where it
/// does not run, that it settled where it runs and has no check, and nothing
/// yet where its check has still to pass.
pub proof fn law_the_machine_hears_what_was_seen(start: Starting, reply: Reply)
    ensures
        start.phase matches Phase::Settle(index, handle) ==> (reply matches Reply::Observed(seen)
            ==> {
            let index = start.phase->Settle_0;
            let seen = reply->Observed_0;
            if seen.status != HostStatus::Running {
                start.after(reply).machine == start.machine.after(Happening::Exited(index, true))
            } else if start.processes[index].health_check_type@ == "NONE"@ {
                start.after(reply).machine == start.machine.after(Happening::Settled(index))
            } else {
                start.after(reply) == moved_to(start, Phase::Poll(index, start.phase->Settle_1))
            }
        }),
        start.phase matches Phase::Poll(index, handle) ==> (reply matches Reply::Polled {
            health,
            status,
            waited_ms,
        } ==> {
            let index = start.phase->Poll_0;
            let handle = start.phase->Poll_1;
            let over = reply->Polled_status != HostStatus::Running || reply->Polled_waited_ms
                >= crate::orchestrator::settings::patience(start.processes[index]) * 1000;
            if reply->Polled_health is Passing {
                start.after(reply).machine == start.machine.after(Happening::Healthy(index))
            } else if over {
                start.after(reply) == moved_to(start, Phase::StopUnhealthy(index, handle))
            } else {
                start.after(reply) == moved_to(start, Phase::Sleep(index, handle))
            }
        }),
        start.phase matches Phase::Sleep(index, handle) ==> (reply is Done ==> start.after(reply)
            == moved_to(start, Phase::Poll(start.phase->Sleep_0, start.phase->Sleep_1))),
        start.phase matches Phase::StopUnhealthy(index, handle) ==> (reply is Stopped
            ==> start.after(reply).machine == start.machine.after(
            Happening::Exited(start.phase->StopUnhealthy_0, true),
        )),
{
    match start.phase {
        Phase::Settle(index, handle) => {
            let dead = Happening::Exited(index, true);
            let up = Happening::Settled(index);
            hearing_changes_the_machine_alone(
                start,
                dead,
                Starting::next_of(start.machine.acts(dead)),
            );
            hearing_changes_the_machine_alone(
                start,
                up,
                Starting::next_of(start.machine.acts(up)),
            );
        },
        Phase::Poll(index, handle) => {
            let up = Happening::Healthy(index);
            hearing_changes_the_machine_alone(
                start,
                up,
                Starting::next_of(start.machine.acts(up)),
            );
        },
        Phase::StopUnhealthy(index, handle) => {
            let dead = Happening::Exited(index, true);
            hearing_changes_the_machine_alone(
                start,
                dead,
                Starting::next_of(start.machine.acts(dead)),
            );
        },
        _ => {},
    }
}

/// What the machine asks for is carried out, all of it and in its order, before
/// anything else; then the process it spawns is started, and where it spawns
/// none there is nothing left to bring up.
pub proof fn law_what_the_machine_asks_for_comes_first(
    start: Starting,
    reply: Reply,
    event: Happening,
)
    requires
        match (start.phase, reply) {
            (Phase::Settle(index, handle), Reply::Observed(seen)) => if seen.status
                != HostStatus::Running {
                event == Happening::Exited(index, true)
            } else {
                event == Happening::Settled(index) && start.processes[index].health_check_type@
                    == "NONE"@
            },
            (Phase::Poll(index, handle), Reply::Polled { health, status, waited_ms }) => health
                is Passing && event == Happening::Healthy(index),
            (Phase::StopUnhealthy(index, handle), Reply::Stopped(result)) => event
                == Happening::Exited(index, true),
            _ => false,
        },
    ensures
        ({
            let deeds = crate::orchestrator::exchange::all_carried_out(
                start.machine.acts(event),
                start.processes,
                start.running,
            );
            let then_next = match crate::orchestrator::exchange::spawn_in(
                start.machine.acts(event),
            ) {
                Some(index) => Next::Start(index),
                None => Next::Rest,
            };
            let after = start.after(reply);
            &&& deeds.len() > 0 ==> after.phase == Phase::Apply(deeds, 0, then_next)
            &&& deeds.len() == 0 ==> after == driving(start, start.machine.after(event)).go(then_next)
        }),
{
}

/// Where a start goes once what the machine asked for is done: to the process
/// it spawns, served by this application where the project is a static site,
/// and to registering everything where it spawns none.
pub proof fn law_the_next_process_is_brought_up(start: Starting, then_next: Next)
    ensures
        match then_next {
            Next::Start(index) => start.go(then_next) == moved_to(start, if !(0 <= index < start.processes.len()) {
                    Phase::RegisterAll
                } else if start.runtime->0.runtime@ == "STATIC"@ {
                    Phase::Executable(index)
                } else {
                    Phase::Command(index)
                }),
            Next::Rest => start.go(then_next) == moved_to(start, Phase::RegisterAll),
            Next::Fail(failure) => start.go(then_next) == moved_to(start, Phase::Finished(Err(failure))),
            Next::Abandon(failure) => start.go(then_next) == moved_to(start, if start.running.len() == 0 {
                    Phase::Finished(Err(failure))
                } else {
                    Phase::StopAll(start.running.len() as int, failure)
                }),
        },
{
}

/// What is carried out is written or stopped one by one: the next of the deeds
/// follows once the last was done, and after the last of them the start goes
/// on.
pub proof fn law_deeds_are_done_one_by_one(start: Starting, reply: Reply)
    requires
        start.phase is Apply,
    ensures
        ({
            let deeds = start.phase->Apply_0;
            let at = start.phase->Apply_1;
            let then_next = start.phase->Apply_2;
            &&& start.request() == match deeds[at] {
                Deed::Stop(handle) => Ask::Stop(handle),
                deed => Ask::Record(deed),
            }
            &&& reply is Done || reply is Stopped ==> start.after(reply) == if at + 1
                < deeds.len() {
                moved_to(start, Phase::Apply(deeds, at + 1, then_next))
            } else {
                start.go(then_next)
            }
            &&& !(reply is Done) && !(reply is Stopped) ==> start.after(reply) == start
        }),
{
}

/// The machine of a start is made of the rows, one process for each, with a
/// check exactly where the row has one; and it starts with the first process.
pub proof fn law_the_machine_is_made_of_the_rows(start: Starting, reply: Reply)
    requires
        start.phase is Ports,
        reply matches Reply::Ports(Ok(rows)),
    ensures
        ({
            let machine = start.after(reply).machine;
            let steps = crate::orchestrator::prepare::needed(start.processes);
            &&& machine.checks.len() == start.processes.len()
            &&& machine.states.len() == start.processes.len()
            &&& !machine.stopping
            &&& forall|i: int|
                0 <= i < start.processes.len() ==> (#[trigger] machine.checks[i] <==> (
                start.processes[i].health_check_type@ != "NONE"@))
            &&& steps.len() > 0 ==> start.after(reply).phase is Building && forall|i: int|
                0 <= i < start.processes.len() ==> #[trigger] machine.states[i] is Stopped
            &&& steps.len() == 0 ==> forall|i: int|
                0 <= i < start.processes.len() ==> #[trigger] machine.states[i] == if i == 0 {
                    ProcessState::Starting
                } else {
                    ProcessState::Pending
                }
            &&& steps.len() == 0 && start.processes.len() > 0 ==> begins_with_the_first(
                start,
                start.after(reply),
            )
        }),
{
    let rows = (reply->Ports_0->Ok_0)@;
    let laid = Starting {
        ports: crate::orchestrator::settings::ports_of(rows, start.processes),
        steps: crate::orchestrator::prepare::needed(start.processes),
        machine: crate::orchestration::Project {
            checks: super::checks_of(start.processes),
            states: Seq::new(start.processes.len(), |i: int| ProcessState::Stopped),
            stopping: false,
        },
        ..start
    };
    beginning_changes_the_machine_alone(laid);
    crate::orchestration::meaning::law_a_start_begins_anew(laid.machine);
    if start.processes.len() > 0 {
        beginning_begins_with_the_first(laid);
    }
}

/// Once the project is built the machine begins with the first process, which
/// is brought up after that was written.
pub proof fn law_the_first_process_follows_the_preparation(start: Starting, reply: Reply)
    requires
        start.phase is Built,
        reply matches Reply::Recorded(Ok(_)),
        start.machine.checks.len() == start.machine.states.len(),
        start.machine.states.len() == start.processes.len(),
        start.processes.len() > 0,
    ensures
        ({
            let after = start.after(reply);
            &&& after.machine == start.machine.started()
            &&& begins_with_the_first(start, after)
        }),
{
    beginning_changes_the_machine_alone(start);
    beginning_begins_with_the_first(start);
}

/// Whether a start is about to bring up the first process: that it is starting
/// is written first, and nothing else is.
pub open spec fn begins_with_the_first(start: Starting, after: Starting) -> bool {
    &&& after.phase is Apply
    &&& after.phase->Apply_1 == 0
    &&& after.phase->Apply_2 == Next::Start(0)
    &&& after.phase->Apply_0.len() == 1
    &&& after.phase->Apply_0[0] is Record
    &&& after.phase->Apply_0[0]->Record_process_id == start.processes[0].id@
    &&& after.phase->Apply_0[0]->Record_state is Starting
    &&& after.phase->Apply_0[0]->Record_reason is None
}

proof fn beginning_begins_with_the_first(start: Starting)
    requires
        start.machine.checks.len() == start.machine.states.len(),
        start.machine.states.len() == start.processes.len(),
        start.processes.len() > 0,
    ensures
        begins_with_the_first(start, start.begun()),
{
    crate::orchestration::meaning::law_a_start_begins_anew(start.machine);
    let acts = start.machine.start_acts();
    assert(acts.len() == 3);
    reveal_with_fuel(crate::orchestrator::exchange::spawn_from, 4);
    reveal_with_fuel(crate::orchestrator::exchange::all_carried_out, 5);
    assert(crate::orchestrator::exchange::spawn_in(acts) == Some(0int));
    let one = crate::orchestrator::exchange::carried_out(acts[0], start.processes, start.running);
    assert(acts.drop_last().drop_last().drop_last() =~= Seq::empty());
    assert(crate::orchestrator::exchange::all_carried_out(acts, start.processes, start.running)
        =~= one);
}

/// The end of a start: everything that runs is registered, the project is
/// recorded as started where it runs, and what is then seen of every process is
/// what the start reports.
pub proof fn law_a_start_ends_with_a_report(start: Starting, reply: Reply)
    ensures
        start.phase is RegisterAll && reply is Done ==> start.after(reply) == moved_to(start, if start.machine.status() == ProjectStatus::RUNNING {
                Phase::RecordStarted
            } else {
                Phase::ObserveAll
            }),
        start.phase is RecordStarted ==> start.request() == Ask::RecordStarted(start.project.id@),
        start.phase is RecordStarted && (reply matches Reply::Recorded(Ok(_))) ==> start.after(
            reply,
        ) == moved_to(start, Phase::ObserveAll),
        start.phase is ObserveAll ==> {
            &&& start.request() is ObserveAll
            &&& start.request()->ObserveAll_0.len() == start.running.len()
            &&& forall|i: int|
                0 <= i < start.running.len() ==> #[trigger] start.request()->ObserveAll_0[i]
                    == start.running[i].handle
        },
        start.phase is ObserveAll && (reply matches Reply::Observations(seen)) && (
        reply->Observations_0)@.len() == start.running.len() ==> start.after(reply).phase
            == Phase::Finished(
            Ok(
                crate::orchestrator::observed::overall(
                    start.machine.status(),
                    start.running,
                    (reply->Observations_0)@,
                ),
            ),
        ),
        start.phase is Finished ==> start.after(reply) == start && start.request() == Ask::Nothing,
{
}

/// Every question before the preparation is about the project itself, and each
/// is asked once the one before it was answered.
pub proof fn law_a_start_asks_in_order(start: Starting, reply: Reply)
    ensures
        start.phase is Processes ==> start.request() == Ask::ListProcesses(start.project.id@),
        start.phase is Runtime ==> start.request() == Ask::FindRuntime(start.project.id@),
        start.phase is Registered ==> start.request() == Ask::TakeRegistered(start.project.id@),
        start.phase is Port ==> start.request() == Ask::CheckPort(start.project.id@),
        start.phase is Environment ==> start.request() == Ask::ResolveEnvironment(
            start.project.id@,
        ),
        start.phase is Ports ==> start.request() == Ask::ListPorts(start.project.id@),
        start.phase is Registered && (reply matches Reply::Registered(previous)) ==> start.after(
            reply,
        ) == moved_to(start, if (reply->Registered_0)@.len() == 0 {
                Phase::Port
            } else {
                Phase::StopPrevious((reply->Registered_0)@)
            }),
        start.phase matches Phase::StopPrevious(left) ==> start.request() == Ask::Stop(
            start.phase->StopPrevious_0.last().handle,
        ),
        start.phase matches Phase::StopPrevious(left) ==> (reply is Stopped ==> start.after(reply)
            == moved_to(start, if start.phase->StopPrevious_0.len() == 1 {
                Phase::Port
            } else {
                Phase::StopPrevious(start.phase->StopPrevious_0.drop_last())
            }) || start.phase->StopPrevious_0.len() == 0),
        start.phase is Port && (reply matches Reply::Port(Ok(_))) ==> start.after(reply)
            == moved_to(start, Phase::Environment),
        start.phase is Building && (reply matches Reply::Recorded(Ok(_))) ==> start.after(reply)
            == moved_to(start, Phase::Prepare(0)),
{
}

/// A failure before anything runs ends a start in its own words.
pub proof fn law_a_refused_start_says_why(start: Starting, reply: Reply, error: String)
    ensures
        start.phase is Processes && reply == Reply::Processes(Err(error)) || start.phase is Runtime
            && reply == Reply::Runtime(Err(error)) || start.phase is Environment && reply
            == Reply::Environment(Err(error)) || start.phase is Ports && reply == Reply::Ports(
            Err(error),
        ) || (start.phase is Building || start.phase is Built || start.phase is RecordStarted)
            && reply == Reply::Recorded(Err(error)) ==> start.after(reply) == moved_to(start, Phase::Finished(Err(Failure::Database(error@)))),
        start.phase is Processes && (reply matches Reply::Processes(Ok(rows))) && (
        reply->Processes_0->Ok_0)@.len() == 0 ==> start.after(reply).phase == Phase::Finished(
            Err(Failure::NoProcesses(start.project.id@)),
        ),
        start.phase is Runtime && reply == Reply::Runtime(Ok(None)) ==> start.after(reply).phase
            == Phase::Finished(Err(Failure::Scaffold("the project has no runtime row"@))),
        start.phase is Port && (reply matches Reply::Port(Err(conflict))) ==> start.after(
            reply,
        ).phase == Phase::Finished(
            Err(Failure::PortConflict((reply->Port_0->Err_0).explanation@)),
        ),
        start.phase is Prepare && reply == Reply::Command(Err(error)) ==> start.after(reply)
            == moved_to(start, Phase::Finished(Err(Failure::Command(error@)))),
{
}

/// A step that fails is the failure of the process that declared it: the
/// machine hears of it in the step's own words, what the machine asks for is
/// written, and the start ends with it.
pub proof fn law_a_failed_step_is_its_processes_failure(
    start: Starting,
    reply: Reply,
    error: String,
)
    requires
        start.phase is RunStep,
        reply == Reply::Stepped(Err(error)),
    ensures
        ({
            let event = Happening::PrepareFailed(
                start.steps[start.phase->RunStep_0].process_index,
                error@,
            );
            let deeds = crate::orchestrator::exchange::all_carried_out(
                start.machine.acts(event),
                start.processes,
                start.running,
            );
            let after = start.after(reply);
            &&& after.machine == start.machine.after(event)
            &&& deeds.len() > 0 ==> after.phase == Phase::Apply(
                deeds,
                0,
                Next::Fail(Failure::Host(error@)),
            )
            &&& deeds.len() == 0 ==> after.phase == Phase::Finished(Err(Failure::Host(error@)))
        }),
{
}

/// Whether a reply answers what is asked in a phase.
pub open spec fn answers(start: Starting, reply: Reply) -> bool {
    match start.phase {
        Phase::Processes => reply is Processes,
        Phase::Runtime => reply is Runtime,
        Phase::Candidates => reply is Candidates,
        Phase::Toolchain => reply is Probed,
        Phase::Registered => reply is Registered,
        Phase::StopPrevious(left) => reply is Stopped,
        Phase::Port => reply is Port,
        Phase::Environment => reply is Environment,
        Phase::Ports => reply is Ports,
        Phase::Building => reply is Recorded,
        Phase::Prepare(at) => reply is Command,
        Phase::RunStep(at, command) => reply is Stepped,
        Phase::Built => reply is Recorded,
        Phase::Apply(deeds, at, then_next) => reply is Done || reply is Stopped,
        Phase::Executable(index) => reply is Executable,
        Phase::Command(index) => reply is Command,
        Phase::Spawn(index, command) => reply is Spawned,
        Phase::Register(index, handle) => reply is Done,
        Phase::Settle(index, handle) => reply is Observed,
        Phase::Poll(index, handle) => reply is Polled,
        Phase::Sleep(index, handle) => reply is Done,
        Phase::StopUnhealthy(index, handle) => reply is Stopped,
        Phase::StopAll(left, failure) => reply is Stopped,
        Phase::RegisterAll => reply is Done,
        Phase::RecordStarted => reply is Recorded,
        Phase::ObserveAll => reply matches Reply::Observations(seen) && seen@.len()
            == start.running.len(),
        Phase::Finished(result) => false,
    }
}

/// A reply to something that was not asked changes nothing.
pub proof fn law_a_start_listens_to_what_it_asked(start: Starting, reply: Reply)
    requires
        !answers(start, reply),
    ensures
        start.after(reply) == start,
{
}

/// Only news moves the machine: what is learned, made, spawned, registered or
/// waited for leaves it where it is.
pub proof fn law_only_news_moves_the_machine(start: Starting, reply: Reply)
    requires
        !(start.phase is Ports),
        !(start.phase is Built),
        !(start.phase is RunStep && (reply matches Reply::Stepped(Err(_)))),
        !(start.phase is Settle),
        !(start.phase is Poll),
        !(start.phase is StopUnhealthy),
        super::teardown::refusal(start, reply) is None,
    ensures
        start.after(reply).machine == start.machine,
{
}

} // verus!
