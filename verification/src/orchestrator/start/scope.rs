//! What a start reaches for: its own project, its own processes and their own
//! ports, and nothing else.

use super::{Next, Phase, Starting};
use crate::orchestration::{Act, Happening};
use crate::orchestrator::exchange::{Ask, Deed, Reply};
use crate::orchestrator::registry::RunningProcess;
use crate::records::ProcessRecord;
use vstd::prelude::*;

verus! {

/// Whether a handle is that of a process which is running.
pub open spec fn knows(running: Seq<RunningProcess>, handle: u64) -> bool {
    exists|k: int| 0 <= k < running.len() && (#[trigger] running[k]).handle == handle
}

/// Whether every stop among the deeds is of a process which is running.
pub open spec fn stops_known(deeds: Seq<Deed>, running: Seq<RunningProcess>) -> bool {
    forall|k: int|
        0 <= k < deeds.len() ==> ((#[trigger] deeds[k]) matches Deed::Stop(handle) ==> knows(
            running,
            handle,
        ))
}

/// Whether a start deals with handles of its own only.
pub open spec fn minds_its_own(start: Starting) -> bool {
    match start.phase {
        Phase::Apply(effects, at, then_next) => stops_known(effects, start.running),
        Phase::Register(index, handle) => knows(start.running, handle),
        Phase::Settle(index, handle) => knows(start.running, handle),
        Phase::Poll(index, handle) => knows(start.running, handle),
        Phase::Sleep(index, handle) => knows(start.running, handle),
        Phase::StopUnhealthy(index, handle) => knows(start.running, handle),
        _ => true,
    }
}

/// The project a request is about, where it is about one.
pub open spec fn project_of(ask: Ask) -> Option<Seq<char>> {
    match ask {
        Ask::ListProcesses(project) => Some(project),
        Ask::FindRuntime(project) => Some(project),
        Ask::TakeRegistered(project) => Some(project),
        Ask::FindHandle(project, process) => Some(project),
        Ask::CheckPort(project) => Some(project),
        Ask::ResolveEnvironment(project) => Some(project),
        Ask::ListPorts(project) => Some(project),
        Ask::Announce(project, status) => Some(project),
        Ask::Register(project, running) => Some(project),
        Ask::ReplaceHandle(project, process, handle) => Some(project),
        Ask::RecordStarted(project) => Some(project),
        _ => None,
    }
}

proof fn a_supervisor_is_running(running: Seq<RunningProcess>, process_id: Seq<char>, from: int)
    requires
        0 <= from,
    ensures
        crate::orchestrator::exchange::supervisor_from(running, process_id, from) matches Some(
            handle,
        ) ==> knows(running, handle),
    decreases running.len() - from,
{
    if from < running.len() {
        if running[from].process_id@ == process_id {
            assert(running[from].handle == running[from].handle);
        } else {
            a_supervisor_is_running(running, process_id, from + 1);
        }
    }
}

proof fn stops_are_of_what_runs(
    acts: Seq<Act>,
    processes: Seq<ProcessRecord>,
    running: Seq<RunningProcess>,
)
    ensures
        stops_known(
            crate::orchestrator::exchange::all_carried_out(acts, processes, running),
            running,
        ),
    decreases acts.len(),
{
    if acts.len() > 0 {
        stops_are_of_what_runs(acts.drop_last(), processes, running);
        match acts.last() {
            Act::Stop(index) => {
                a_supervisor_is_running(running, processes[index].id@, 0);
            },
            _ => {},
        }
    }
}

proof fn applying_minds_its_own(start: Starting, acts: Seq<Act>, then_next: Next)
    ensures
        minds_its_own(start.applying(acts, then_next)),
        start.applying(acts, then_next).project == start.project,
        start.applying(acts, then_next).processes == start.processes,
        start.applying(acts, then_next).ports == start.ports,
{
    stops_are_of_what_runs(acts, start.processes, start.running);
}

proof fn hearing_minds_its_own(start: Starting, event: Happening, then_next: Next)
    ensures
        minds_its_own(start.heard_then(event, then_next)),
        start.heard_then(event, then_next).project == start.project,
        start.heard_then(event, then_next).processes == start.processes,
        start.heard_then(event, then_next).ports == start.ports,
{
    applying_minds_its_own(
        Starting { machine: start.machine.after(event), ..start },
        start.machine.acts(event),
        then_next,
    );
}

proof fn beginning_minds_its_own(start: Starting)
    ensures
        minds_its_own(start.begun()),
        start.begun().project == start.project,
        start.begun().processes == start.processes,
        start.begun().ports == start.ports,
{
    applying_minds_its_own(
        Starting { machine: start.machine.started(), ..start },
        start.machine.start_acts(),
        Starting::next_of(start.machine.start_acts()),
    );
}

/// Where a reply leads, as far as its own project, rows and ports go.
#[verifier::spinoff_prover]
#[verifier::rlimit(60)]
proof fn a_reply_keeps_to_the_project(start: Starting, reply: Reply)
    requires
        minds_its_own(start),
    ensures
        minds_its_own(start.after(reply)),
        start.after(reply).project == start.project,
        super::laws::rank(start.phase) > 8 ==> start.after(reply).processes == start.processes
            && start.after(reply).ports == start.ports,
        start.phase is Ports && (reply matches Reply::Ports(Ok(rows))) ==> start.after(
            reply,
        ).processes == start.processes && start.after(reply).ports
            == crate::orchestrator::settings::ports_of(
            (reply->Ports_0->Ok_0)@,
            start.processes,
        ),
{
    match start.phase {
        Phase::Ports => {
            if reply is Ports && reply->Ports_0 is Ok {
                let rows = (reply->Ports_0->Ok_0)@;
                let laid = Starting {
                    ports: crate::orchestrator::settings::ports_of(rows, start.processes),
                    steps: crate::orchestrator::prepare::needed(start.processes),
                    machine: crate::orchestration::Project {
                        checks: super::checks_of(start.processes),
                        states: Seq::new(
                            start.processes.len(),
                            |i: int| crate::orchestration::ProcessState::Stopped,
                        ),
                        stopping: false,
                    },
                    ..start
                };
                beginning_minds_its_own(laid);
            }
        },
        Phase::RunStep(at, command) => {
            if reply is Stepped {
                if reply->Stepped_0 is Err {
                    let error = (reply->Stepped_0->Err_0)@;
                    hearing_minds_its_own(
                        start,
                        Happening::PrepareFailed(start.steps[at].process_index, error),
                        Next::Fail(crate::lifecycle::Failure::Host(error)),
                    );
                }
            }
        },
        Phase::Built => {
            beginning_minds_its_own(start);
        },
        Phase::Executable(index) | Phase::Command(index) | Phase::Spawn(index, _) => {
            if super::teardown::refusal(start, reply) is Some {
                let failure = super::teardown::refusal(start, reply)->0;
                hearing_minds_its_own(
                    start,
                    Happening::PrepareFailed(index, failure.text()),
                    Next::Abandon(failure),
                );
            } else if start.phase is Spawn && reply is Spawned {
                let next = start.after(reply);
                assert(next.running[start.running.len() as int].handle == reply->Spawned_0->Ok_0);
            }
        },
        Phase::Settle(index, handle) => {
            let dead = Happening::Exited(index, true);
            let up = Happening::Settled(index);
            hearing_minds_its_own(start, dead, Starting::next_of(start.machine.acts(dead)));
            hearing_minds_its_own(start, up, Starting::next_of(start.machine.acts(up)));
        },
        Phase::Poll(index, handle) => {
            let up = Happening::Healthy(index);
            hearing_minds_its_own(start, up, Starting::next_of(start.machine.acts(up)));
        },
        Phase::StopUnhealthy(index, handle) => {
            let dead = Happening::Exited(index, true);
            hearing_minds_its_own(start, dead, Starting::next_of(start.machine.acts(dead)));
        },
        _ => {},
    }
}

/// A start minds its own project, so that projects run side by side: every
/// request that is about a project is about its own, and the only processes it
/// ever stops are those it started and those the registry had under its
/// project before.
pub proof fn law_a_start_minds_its_own_project(start: Starting, reply: Reply)
    requires
        start.wf(),
        minds_its_own(start),
    ensures
        minds_its_own(start.after(reply)),
        start.after(reply).project == start.project,
        project_of(start.request()) matches Some(project) ==> project == start.project.id@,
        start.request() matches Ask::Stop(handle) ==> (start.phase matches Phase::StopPrevious(left)
            && handle == left.last().handle) || knows(start.running, handle),
{
    a_reply_keeps_to_the_project(start, reply);
    match start.phase {
        Phase::StopAll(left, failure) => {
            assert(start.running[left - 1].handle == start.running[left - 1].handle);
        },
        _ => {},
    }
}

/// A port reaches the process it was allocated to: the ports are those of the
/// rows, they stay so until the start is over, and the command of each process
/// is made with the port of that process.
pub proof fn law_a_port_reaches_its_process(start: Starting, reply: Reply)
    requires
        start.wf(),
        minds_its_own(start),
    ensures
        start.phase is Ports && (reply matches Reply::Ports(Ok(rows))) ==> start.after(reply).ports
            == crate::orchestrator::settings::ports_of(
            (reply->Ports_0->Ok_0)@,
            start.processes,
        ),
        super::laws::rank(start.phase) > 8 ==> start.after(reply).ports == start.ports
            && start.after(reply).processes == start.processes,
        start.phase matches Phase::Command(index) ==> start.request()->BuildCommand_port
            == crate::orchestrator::settings::port_at(start.ports, index)
            && start.request()->BuildCommand_text == start.processes[index].command@,
        start.phase matches Phase::Spawn(index, command) ==> start.request()->Spawn_health
            == crate::orchestrator::exchange::asked_of(
            start.processes[index],
            crate::orchestrator::settings::port_at(start.ports, index),
        ),
{
    a_reply_keeps_to_the_project(start, reply);
}

} // verus!
