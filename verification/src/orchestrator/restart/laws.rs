//! What holds of every restart of one process, whatever replies it gets.

use super::{Phase, Restarting};
use crate::lifecycle::Failure;
use crate::orchestrator::exchange::{Ask, Reply};
use vstd::prelude::*;

verus! {

/// How far along a restart is in a phase.
pub open spec fn rank(phase: Phase) -> int {
    match phase {
        Phase::Handle => 0,
        Phase::Processes => 1,
        Phase::Runtime => 2,
        Phase::Candidates => 3,
        Phase::Toolchain => 4,
        Phase::Environment => 5,
        Phase::Ports => 6,
        Phase::Executable => 7,
        Phase::Command => 7,
        Phase::StopPrevious(command) => 8,
        Phase::Spawn(command) => 9,
        Phase::Replace(handle) => 10,
        Phase::Undo(handle) => 11,
        Phase::Observe(handle) => 11,
        Phase::Record(handle, observed) => 12,
        Phase::Count => 13,
        Phase::Finished(result) => 14,
    }
}

/// A restart never goes back: each reply leaves it where it is or further
/// along.
pub proof fn law_a_restart_goes_forward(restart: Restarting, reply: Reply)
    requires
        restart.wf(),
    ensures
        rank(restart.phase) <= rank(restart.after(reply).phase),
        restart.after(reply).wf(),
{
    if restart.phase is Processes && reply is Processes && reply->Processes_0 is Ok {
        let processes = (reply->Processes_0->Ok_0)@;
        row_named_is_ahead(processes, restart.name, 0);
    }
}

proof fn row_named_is_ahead(
    processes: Seq<crate::records::ProcessRecord>,
    name: Seq<char>,
    from: int,
)
    ensures
        from <= super::row_named(processes, name, from),
        super::row_named(processes, name, from) < processes.len() ==> processes[super::row_named(
            processes,
            name,
            from,
        )].name@ == name,
    decreases processes.len() - from,
{
    if from < processes.len() && processes[from].name@ != name {
        row_named_is_ahead(processes, name, from + 1);
    }
}

/// Nothing is touched before everything is resolved: as long as the row, the
/// runtime, the toolchain, the environment, the port and the command are not
/// all known, nothing is stopped, spawned, registered or written. So a restart
/// that is refused leaves the running process alone.
pub proof fn law_everything_is_resolved_first(restart: Restarting)
    requires
        restart.wf(),
        crate::orchestrator::start::laws::touches(restart.request()),
    ensures
        rank(restart.phase) >= rank(Phase::StopPrevious(arbitrary())),
        0 <= restart.index < restart.processes.len(),
        restart.runtime is Some,
{
}

/// The old process is gone before the new one is spawned: the command to spawn
/// is the one at hand when the old process was told to stop, and only a stop
/// that succeeded leads there.
pub proof fn law_the_old_process_goes_first(restart: Restarting, reply: Reply)
    requires
        restart.wf(),
        !(restart.phase is Spawn),
        restart.after(reply).phase is Spawn,
    ensures
        restart.phase == Phase::StopPrevious(restart.after(reply).phase->Spawn_0),
        restart.request() == Ask::Stop(restart.previous),
        reply matches Reply::Stopped(Ok(_)),
{
}

/// Only the process that is restarted is ever stopped: the one that ran under
/// the name, or the fresh one that has no place in the registry.
pub proof fn law_siblings_are_left_alone(restart: Restarting, handle: u64)
    requires
        restart.request() == Ask::Stop(handle),
    ensures
        match restart.phase {
            Phase::StopPrevious(command) => handle == restart.previous,
            Phase::Undo(fresh) => handle == fresh,
            _ => false,
        },
{
}

/// A fresh process that found no place in the registry is stopped, and the
/// restart is refused by name.
pub proof fn law_an_unregistered_process_is_stopped(
    restart: Restarting,
    replaced: Reply,
    stopped: Reply,
    handle: u64,
)
    requires
        restart.phase == Phase::Replace(handle),
        replaced == Reply::Replaced(false),
        stopped is Stopped,
    ensures
        restart.after(replaced).request() == Ask::Stop(handle),
        restart.after(replaced).after(stopped).phase == Phase::Finished(
            Err(Failure::NoSuchProcess(restart.project.id@, restart.name)),
        ),
{
}

/// A name that is not there is refused, whether it is the registry or the
/// database that does not know it.
pub proof fn law_an_unknown_name_is_refused(restart: Restarting, reply: Reply)
    requires
        match restart.phase {
            Phase::Handle => reply == Reply::Handle(None),
            Phase::Processes => (reply matches Reply::Processes(Ok(processes)) && forall|i: int|
                0 <= i < processes@.len() ==> (#[trigger] processes@[i]).name@ != restart.name),
            _ => false,
        },
    ensures
        restart.after(reply).phase == Phase::Finished(
            Err(Failure::NoSuchProcess(restart.project.id@, restart.name)),
        ),
{
    if restart.phase is Processes {
        row_named_is_ahead((reply->Processes_0->Ok_0)@, restart.name, 0);
    }
}

/// A restart that succeeds has swapped the registry's handle, written what was
/// seen of the new process and counted itself.
pub proof fn law_a_restart_succeeds_only_at_the_end(restart: Restarting, reply: Reply)
    requires
        restart.wf(),
        !(restart.phase is Finished),
        restart.after(reply).phase == Phase::Finished(Ok::<(), Failure>(())),
    ensures
        restart.phase is Count,
        reply is Done,
{
}

} // verus!
