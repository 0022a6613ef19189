//! What a restart remembers, what it hands on, and where each reply takes it.

use super::{Phase, Restarting};
use crate::lifecycle::Failure;
use crate::orchestration::ProcessState;
use crate::orchestrator::exchange::{Ask, Reply};
use crate::orchestrator::observed::HostStatus;
use crate::orchestrator::settings::{Probed, Toolchain};
use crate::records::ProcessRecord;
use vstd::prelude::*;

verus! {

proof fn the_first_row_of_a_name(processes: Seq<ProcessRecord>, name: Seq<char>, from: int)
    requires
        0 <= from <= processes.len(),
    ensures
        from <= super::row_named(processes, name, from) <= processes.len(),
        super::row_named(processes, name, from) < processes.len() ==> processes[super::row_named(
            processes,
            name,
            from,
        )].name@ == name,
        forall|j: int|
            from <= j < super::row_named(processes, name, from) ==> (#[trigger] processes[j]).name@
                != name,
    decreases processes.len() - from,
{
    if from < processes.len() && processes[from].name@ != name {
        the_first_row_of_a_name(processes, name, from + 1);
    }
}

/// A restart never forgets whose it is.
pub proof fn law_a_restart_stays_with_its_process(restart: Restarting, reply: Reply)
    ensures
        restart.after(reply).project == restart.project,
        restart.after(reply).directory == restart.directory,
        restart.after(reply).name == restart.name,
{
}

/// The process that is stopped is the one the registry gave for the name: it is
/// learned from that reply and from no other.
pub proof fn law_the_old_handle_is_the_registrys(restart: Restarting, reply: Reply)
    ensures
        restart.phase is Handle && (reply matches Reply::Handle(Some(handle))) ==> restart.after(
            reply,
        ).previous == reply->Handle_0->0 && restart.after(reply).phase is Processes,
        !(restart.phase is Handle) ==> restart.after(reply).previous == restart.previous,
        restart.phase is StopPrevious ==> restart.request() == Ask::Stop(restart.previous),
{
}

/// The row that is restarted is the first that bears the name, of the rows that
/// were listed, and it stays that row.
pub proof fn law_the_row_is_the_one_of_that_name(restart: Restarting, reply: Reply, at: int)
    ensures
        restart.phase is Processes && (reply matches Reply::Processes(Ok(rows))) && 0 <= at
            < (reply->Processes_0->Ok_0)@.len() && (reply->Processes_0->Ok_0)@[at].name@
            == restart.name && (forall|j: int|
            0 <= j < at ==> (#[trigger] (reply->Processes_0->Ok_0)@[j]).name@ != restart.name)
            ==> restart.after(reply).phase is Runtime && restart.after(reply).index == at
            && restart.after(reply).processes == (reply->Processes_0->Ok_0)@,
        !(restart.phase is Processes) ==> restart.after(reply).index == restart.index
            && restart.after(reply).processes == restart.processes,
{
    if restart.phase is Processes && reply is Processes && reply->Processes_0 is Ok {
        let rows = (reply->Processes_0->Ok_0)@;
        the_first_row_of_a_name(rows, restart.name, 0);
        let first = super::row_named(rows, restart.name, 0);
        if 0 <= at < rows.len() && rows[at].name@ == restart.name && (forall|j: int|
            0 <= j < at ==> (#[trigger] rows[j]).name@ != restart.name) {
            if first < at {
                assert(rows[first].name@ != restart.name);
            }
            if at < first {
                assert(rows[at].name@ != restart.name);
            }
        }
    }
}

/// The port of a restart is the one allocated to its own row, is learned once,
/// and is the one the command and the health check are made with.
pub proof fn law_a_restart_keeps_to_its_own_port(restart: Restarting, reply: Reply)
    requires
        0 <= restart.index < restart.processes.len(),
    ensures
        restart.phase is Ports && (reply matches Reply::Ports(Ok(rows))) ==> restart.after(
            reply,
        ).port == crate::orchestrator::settings::port_of(
            (reply->Ports_0->Ok_0)@,
            restart.processes[restart.index].id@,
            restart.index,
        ),
        !(restart.phase is Ports) ==> restart.after(reply).port == restart.port,
        restart.phase is Command ==> restart.request()->BuildCommand_port == restart.port,
        restart.phase is Spawn ==> restart.request()->Spawn_health
            == crate::orchestrator::exchange::asked_of(
            restart.processes[restart.index],
            restart.port,
        ),
{
}

/// What the user configured is learned from the reply that carries it, all of
/// it, and is what the command is made with.
pub proof fn law_a_restart_runs_with_what_was_configured(restart: Restarting, reply: Reply)
    ensures
        restart.phase is Environment && (reply matches Reply::Environment(Ok(found))) ==> {
            let values = (reply->Environment_0->Ok_0).values@;
            let env = restart.after(reply).env;
            &&& restart.after(reply).phase is Ports
            &&& env.len() == values.len()
            &&& forall|i: int|
                0 <= i < values.len() ==> (#[trigger] env[i]).0 == values[i].0 && env[i].1
                    == values[i].1@
        },
        !(restart.phase is Environment) ==> restart.after(reply).env == restart.env,
        restart.phase is Command ==> restart.request()->BuildCommand_env == restart.env,
{
}

/// The runtime and its toolchain are learned from the replies that carry them
/// and are what the command is made with; a static site needs no toolchain, and
/// neither does a runtime no executable would do for.
pub proof fn law_a_restart_runs_with_its_toolchain(restart: Restarting, reply: Reply)
    ensures
        restart.phase is Runtime && (reply matches Reply::Runtime(Ok(Some(row)))) ==> {
            let row = reply->Runtime_0->Ok_0->0;
            &&& restart.after(reply).runtime == Some(row)
            &&& row.runtime@ == "STATIC"@ ==> restart.after(reply).phase is Environment
                && restart.after(reply).toolchain == Toolchain::NotRequired
            &&& row.runtime@ != "STATIC"@ ==> restart.after(reply).phase is Candidates
                && restart.after(reply).toolchain == restart.toolchain
        },
        restart.phase is Candidates && (reply matches Reply::Candidates(found)) ==> if (
        reply->Candidates_0)@.len() == 0 {
            restart.after(reply).phase is Environment && restart.after(reply).toolchain
                == Toolchain::NotRequired
        } else {
            restart.after(reply).phase is Toolchain && restart.after(reply).toolchain
                == restart.toolchain
        },
        restart.phase is Toolchain && (reply matches Reply::Probed(Probed::Found(program))) ==> restart.after(
            reply,
        ).phase is Environment && restart.after(reply).toolchain == Toolchain::Found(
            reply->Probed_0->Found_0,
        ),
        restart.phase is Toolchain && reply == Reply::Probed(Probed::NotRequired)
            ==> restart.after(reply).phase is Environment && restart.after(reply).toolchain
            == Toolchain::NotRequired,
        restart.phase is Toolchain && (reply matches Reply::Probed(Probed::Missing { looked_for }))
            ==> restart.after(reply).phase is Finished,
        !(restart.phase is Runtime) ==> restart.after(reply).runtime == restart.runtime,
        !(restart.phase is Runtime) && !(restart.phase is Candidates) && !(restart.phase
            is Toolchain) ==> restart.after(reply).toolchain == restart.toolchain,
        restart.phase is Command ==> restart.request()->BuildCommand_toolchain
            == restart.toolchain && restart.request()->BuildCommand_runtime
            == restart.runtime->0.runtime@,
{
}

/// A restarted process runs the command of its own row, in the directory of its
/// own row, and is tried again after a crash unless the project says `NO`.
pub proof fn law_a_restart_runs_its_own_row(restart: Restarting, reply: Reply)
    requires
        0 <= restart.index < restart.processes.len(),
    ensures
        restart.phase is Command ==> restart.request() is BuildCommand
            && restart.request()->BuildCommand_text == restart.processes[restart.index].command@
            && restart.request()->BuildCommand_directory
            == crate::orchestrator::command::working_directory(
            restart.directory,
            restart.processes[restart.index].working_dir@,
        ),
        restart.phase matches Phase::Spawn(command) ==> restart.request() is Spawn
            && restart.request()->Spawn_command == command
            && restart.request()->Spawn_restart_on_crash == (restart.project.restart_policy@
            != "NO"@),
        restart.phase is Command && (reply matches Reply::Command(Ok(command))) ==> restart.after(
            reply,
        ).phase == Phase::StopPrevious((reply->Command_0->Ok_0)@),
        restart.phase is Executable && (reply matches Reply::Executable(found)) ==> {
            let made = crate::orchestrator::command::serving(
                match reply->Executable_0 {
                    Ok(program) => Ok(program@),
                    Err(error) => Err(error@),
                },
                crate::orchestrator::command::working_directory(
                    restart.directory,
                    restart.processes[restart.index].working_dir@,
                ),
                match restart.runtime->0.publish_dir {
                    Some(directory) => Some(directory@),
                    None => None,
                },
                restart.port,
                restart.env,
            );
            restart.after(reply).phase == match made {
                Ok(command) => Phase::StopPrevious(command),
                Err(failure) => Phase::Finished(Err(failure)),
            }
        },
{
}

/// What is written of a restarted process is what was seen of it: that it runs
/// where it does, and that it crashed where it does not, with its exit code and
/// its words, under the fresh handle and its own row's id.
pub proof fn law_what_was_seen_of_a_restart_is_written(restart: Restarting, reply: Reply)
    requires
        0 <= restart.index < restart.processes.len(),
    ensures
        restart.phase matches Phase::Observe(handle) ==> (reply matches Reply::Observed(seen)
            ==> restart.after(reply).phase == Phase::Record(
            restart.phase->Observe_0,
            reply->Observed_0,
        )),
        restart.phase matches Phase::Record(handle, seen) ==> {
            let handle = restart.phase->Record_0;
            let seen = restart.phase->Record_1;
            &&& restart.request() is RecordObserved
            &&& restart.request()->RecordObserved_process_id == restart.processes[restart.index].id@
            &&& restart.request()->RecordObserved_handle == handle
            &&& restart.request()->RecordObserved_state == if seen.status == HostStatus::Running {
                ProcessState::Running
            } else {
                ProcessState::Crashed
            }
            &&& restart.request()->RecordObserved_exit_code == seen.exit_code
            &&& restart.request()->RecordObserved_reason is Some <==> seen.failure_reason is Some
            &&& seen.failure_reason is Some ==> restart.request()->RecordObserved_reason->0
                == seen.failure_reason->0@
        },
        restart.phase is Count ==> restart.request() == Ask::CountRestart(
            restart.processes[restart.index].id@,
        ),
{
}

/// Every question is about the project, and each reply to it takes the restart
/// to the next one; a failure ends it with that failure.
pub proof fn law_a_restart_goes_step_by_step(restart: Restarting, reply: Reply)
    ensures
        restart.phase is Handle ==> restart.request() == Ask::FindHandle(
            restart.project.id@,
            restart.name,
        ),
        restart.phase is Processes ==> restart.request() == Ask::ListProcesses(
            restart.project.id@,
        ),
        restart.phase is Runtime ==> restart.request() == Ask::FindRuntime(restart.project.id@),
        restart.phase is Candidates ==> restart.request() == Ask::ListCandidates(
            restart.runtime->0.runtime@,
        ),
        restart.phase is Toolchain ==> restart.request() == Ask::Probe(
            restart.runtime->0.runtime@,
        ),
        restart.phase is Environment ==> restart.request() == Ask::ResolveEnvironment(
            restart.project.id@,
        ),
        restart.phase is Ports ==> restart.request() == Ask::ListPorts(restart.project.id@),
        restart.phase is Executable ==> restart.request() == Ask::FindExecutable,
        restart.phase matches Phase::Replace(handle) ==> restart.request() == Ask::ReplaceHandle(
            restart.project.id@,
            restart.name,
            restart.phase->Replace_0,
        ),
        restart.phase matches Phase::Observe(handle) ==> restart.request() == Ask::Observe(
            restart.phase->Observe_0,
        ),
        restart.phase is Ports && (reply matches Reply::Ports(Ok(rows))) ==> restart.after(
            reply,
        ).phase == if restart.runtime->0.runtime@ == "STATIC"@ {
            Phase::Executable
        } else {
            Phase::Command
        },
        restart.phase matches Phase::StopPrevious(command) ==> (reply matches Reply::Stopped(Ok(_))
            ==> restart.after(reply).phase == Phase::Spawn(restart.phase->StopPrevious_0)),
        restart.phase is Spawn && (reply matches Reply::Spawned(Ok(handle))) ==> restart.after(
            reply,
        ).phase == Phase::Replace(reply->Spawned_0->Ok_0),
        restart.phase matches Phase::Replace(handle) ==> (reply == Reply::Replaced(true)
            ==> restart.after(reply).phase == Phase::Observe(restart.phase->Replace_0)),
        restart.phase is Record && reply is Done ==> restart.after(reply).phase is Count,
        restart.phase is Count && reply is Done ==> restart.after(reply).phase == Phase::Finished(
            Ok::<(), Failure>(()),
        ),
{
}

/// A failure ends a restart in its own words, whatever failed.
pub proof fn law_a_failed_restart_says_why(restart: Restarting, reply: Reply, error: String)
    ensures
        restart.phase is Processes && reply == Reply::Processes(Err(error)) || restart.phase
            is Runtime && reply == Reply::Runtime(Err(error)) || restart.phase is Environment
            && reply == Reply::Environment(Err(error)) || restart.phase is Ports && reply
            == Reply::Ports(Err(error)) ==> restart.after(reply).phase == Phase::Finished(
            Err(Failure::Database(error@)),
        ),
        restart.phase is Runtime && reply == Reply::Runtime(Ok(None)) ==> restart.after(
            reply,
        ).phase == Phase::Finished(Err(Failure::Scaffold("the project has no runtime row"@))),
        restart.phase is Command && reply == Reply::Command(Err(error)) ==> restart.after(
            reply,
        ).phase == Phase::Finished(Err(Failure::Command(error@))),
        restart.phase is StopPrevious && reply == Reply::Stopped(Err(error)) || restart.phase
            is Spawn && reply == Reply::Spawned(Err(error)) ==> restart.after(reply).phase
            == Phase::Finished(Err(Failure::Host(error@))),
        restart.phase is Finished ==> restart.after(reply) == restart && restart.request()
            == Ask::Nothing,
{
}

/// A missing toolchain refuses a restart, by the runtime's name and with
/// everything that was looked for.
pub proof fn law_a_restart_names_the_missing_toolchain(
    restart: Restarting,
    looked_for: Vec<String>,
)
    requires
        restart.phase is Toolchain,
    ensures
        ({
            let after = restart.after(Reply::Probed(Probed::Missing { looked_for }));
            let failure = after.phase->Finished_0->Err_0;
            &&& after.phase is Finished
            &&& after.phase->Finished_0 is Err
            &&& failure is ToolchainMissing
            &&& failure->ToolchainMissing_0 == restart.runtime->0.runtime@
            &&& failure->ToolchainMissing_1.len() == looked_for@.len()
            &&& forall|i: int|
                0 <= i < looked_for@.len() ==> #[trigger] failure->ToolchainMissing_1[i]
                    == looked_for@[i]@
        }),
{
}

/// Whether a reply answers what is asked in a phase.
pub open spec fn answers(phase: Phase, reply: Reply) -> bool {
    match phase {
        Phase::Handle => reply is Handle,
        Phase::Processes => reply is Processes,
        Phase::Runtime => reply is Runtime,
        Phase::Candidates => reply is Candidates,
        Phase::Toolchain => reply is Probed,
        Phase::Environment => reply is Environment,
        Phase::Ports => reply is Ports,
        Phase::Executable => reply is Executable,
        Phase::Command => reply is Command,
        Phase::StopPrevious(command) => reply is Stopped,
        Phase::Spawn(command) => reply is Spawned,
        Phase::Replace(handle) => reply is Replaced,
        Phase::Undo(handle) => reply is Stopped,
        Phase::Observe(handle) => reply is Observed,
        Phase::Record(handle, seen) => reply is Done,
        Phase::Count => reply is Done,
        Phase::Finished(result) => false,
    }
}

/// A reply to something that was not asked changes nothing.
pub proof fn law_a_restart_listens_to_what_it_asked(restart: Restarting, reply: Reply)
    requires
        !answers(restart.phase, reply),
    ensures
        restart.after(reply) == restart,
{
}

} // verus!
