//! What a start that fails does to the processes it had already started.

use super::{Next, Phase, Starting};
use crate::lifecycle::Failure;
use crate::orchestration::{Act, Happening, ProcessState, ProjectStatus};
use crate::orchestrator::exchange::{Ask, Deed, Reply};
use crate::orchestrator::observed::HostStatus;
use crate::orchestrator::registry::RunningProcess;
use crate::records::ProcessRecord;
use vstd::prelude::*;

verus! {

/// Whether no two rows have the same id.
pub open spec fn ids_differ(processes: Seq<ProcessRecord>) -> bool {
    forall|i: int, j: int|
        0 <= i < j < processes.len() ==> (#[trigger] processes[i]).id@ != (
        #[trigger] processes[j]).id@
}

/// Why the process being brought up cannot be started, where a start has just
/// heard that: its command cannot be made, this application cannot serve it,
/// or it cannot be spawned.
pub open spec fn refusal(start: Starting, reply: Reply) -> Option<Failure> {
    match (start.phase, reply) {
        (Phase::Executable(index), Reply::Executable(executable)) => {
            match crate::orchestrator::command::serving(
                match executable {
                    Ok(program) => Ok(program@),
                    Err(error) => Err(error@),
                },
                start.directory_of(index),
                crate::text::optional(start.runtime->0.publish_dir),
                crate::orchestrator::settings::port_at(start.ports, index),
                start.env,
            ) {
                Ok(command) => None,
                Err(failure) => Some(failure),
            }
        },
        (Phase::Command(index), Reply::Command(Err(error))) => Some(Failure::Command(error@)),
        (Phase::Spawn(index, command), Reply::Spawned(Err(error))) => Some(Failure::Host(error@)),
        _ => None,
    }
}

/// What the machine hears where a start has just lost the process it is
/// bringing up: it did not survive its settle window, it was stopped for never
/// having reported healthy, or it could not be started at all.
pub open spec fn loss(start: Starting, reply: Reply) -> Option<Happening> {
    match (start.phase, reply) {
        (Phase::Settle(index, handle), Reply::Observed(observed)) => if observed.status
            != HostStatus::Running {
            Some(Happening::Exited(index, true))
        } else {
            None
        },
        (Phase::StopUnhealthy(index, handle), Reply::Stopped(result)) => Some(
            Happening::Exited(index, true),
        ),
        _ => match (start.bringing_up(), refusal(start, reply)) {
            (Some(index), Some(failure)) => Some(Happening::PrepareFailed(index, failure.text())),
            _ => None,
        },
    }
}

/// Whether a start has just lost the process at an index.
pub open spec fn loses(start: Starting, reply: Reply, index: int) -> bool {
    loss(start, reply) is Some && start.bringing_up() == Some(index)
}

/// Where what an action takes begins, among what all the actions take.
spec fn begins(
    acts: Seq<Act>,
    processes: Seq<ProcessRecord>,
    running: Seq<RunningProcess>,
    at: int,
) -> int {
    crate::orchestrator::exchange::all_carried_out(acts.take(at), processes, running).len() as int
}

proof fn each_is_carried_out(
    acts: Seq<Act>,
    processes: Seq<ProcessRecord>,
    running: Seq<RunningProcess>,
    at: int,
)
    requires
        0 <= at < acts.len(),
    ensures
        ({
            let all = crate::orchestrator::exchange::all_carried_out(acts, processes, running);
            let one = crate::orchestrator::exchange::carried_out(acts[at], processes, running);
            let from = begins(acts, processes, running, at);
            &&& from + one.len() <= all.len()
            &&& forall|k: int| 0 <= k < one.len() ==> #[trigger] all[from + k] == one[k]
        }),
    decreases acts.len(),
{
    let earlier = acts.drop_last();
    if at == acts.len() - 1 {
        assert(acts.take(at) =~= earlier);
    } else {
        each_is_carried_out(earlier, processes, running, at);
        assert(earlier.take(at) =~= acts.take(at));
        assert(earlier[at] == acts[at]);
        let all = crate::orchestrator::exchange::all_carried_out(acts, processes, running);
        let some = crate::orchestrator::exchange::all_carried_out(earlier, processes, running);
        let one = crate::orchestrator::exchange::carried_out(acts[at], processes, running);
        let from = begins(acts, processes, running, at);
        assert forall|k: int| 0 <= k < one.len() implies #[trigger] all[from + k] == one[k] by {
            assert(some[from + k] == one[k]);
        }
    }
}

proof fn the_supervisor_is_its_own(
    start: Starting,
    sibling: int,
    from: int,
)
    requires
        super::laws::runs_the_first_rows(start),
        ids_differ(start.processes),
        0 <= from <= sibling < start.running.len(),
    ensures
        crate::orchestrator::exchange::supervisor_from(
            start.running,
            start.processes[sibling].id@,
            from,
        ) == Some(start.running[sibling].handle),
    decreases sibling - from,
{
    assert(start.running[from].process_id == start.processes[from].id);
    if from < sibling {
        the_supervisor_is_its_own(start, sibling, from + 1);
    }
}

/// Where a sibling's stop stands among what the machine's actions take.
proof fn a_sibling_is_stopped(
    start: Starting,
    event: Happening,
    index: int,
    sibling: int,
) -> (at: int)
    requires
        super::laws::runs_the_first_rows(start),
        ids_differ(start.processes),
        crate::orchestration::laws::starting_in_order(start.machine, index),
        start.machine.states.len() == start.processes.len(),
        event == Happening::Exited(index, true) || (event is PrepareFailed
            && event->PrepareFailed_0 == index),
        start.running.len() >= index,
        0 <= sibling < index,
    ensures
        ({
            let acts = start.machine.acts(event);
            let all = crate::orchestrator::exchange::all_carried_out(
                acts,
                start.processes,
                start.running,
            );
            let begin = begins(acts, start.processes, start.running, at);
            &&& 0 <= at < acts.len()
            &&& acts[at] == Act::Stop(sibling)
            &&& 0 <= begin < begins(acts, start.processes, start.running, at + 1) <= all.len()
            &&& all[begin] == Deed::Stop(start.running[sibling].handle)
        }),
{
    let acts = start.machine.acts(event);
    crate::orchestration::laws::law_a_terminal_exit_stops_every_other_process(
        start.machine,
        event,
        index,
    );
    assert(start.machine.states[sibling] is Running);
    assert(crate::orchestration::laws::stops(acts, sibling));
    let at = choose|at: int| 0 <= at < acts.len() && acts[at] == Act::Stop(sibling);
    the_supervisor_is_its_own(start, sibling, 0);
    each_is_carried_out(acts, start.processes, start.running, at);
    let one = crate::orchestrator::exchange::carried_out(
        acts[at],
        start.processes,
        start.running,
    );
    let all = crate::orchestrator::exchange::all_carried_out(acts, start.processes, start.running);
    assert(one =~= seq![Deed::Stop(start.running[sibling].handle)]);
    assert(all[begins(acts, start.processes, start.running, at) + 0] == one[0]);
    assert(acts.take(at + 1).drop_last() =~= acts.take(at));
    assert(acts.take(at + 1).last() == acts[at]);
    at
}

proof fn what_begins_later_is_later(
    acts: Seq<Act>,
    processes: Seq<ProcessRecord>,
    running: Seq<RunningProcess>,
    earlier: int,
    later: int,
)
    requires
        0 <= earlier <= later <= acts.len(),
    ensures
        begins(acts, processes, running, earlier) <= begins(acts, processes, running, later),
    decreases later - earlier,
{
    if earlier < later {
        what_begins_later_is_later(acts, processes, running, earlier, later - 1);
        assert(acts.take(later).drop_last() =~= acts.take(later - 1));
    }
}

/// A failure leaves no sibling running: where the process being brought up is
/// gone for good or cannot be started at all, the handle of every process
/// started before it is among what the start then stops.
pub proof fn law_a_failure_leaves_no_sibling_running(
    start: Starting,
    reply: Reply,
    index: int,
    sibling: int,
)
    requires
        super::laws::sound(start),
        ids_differ(start.processes),
        loses(start, reply, index),
        0 <= sibling < index,
    ensures
        start.after(reply).phase is Apply,
        start.after(reply).phase->Apply_1 == 0,
        start.after(reply).phase->Apply_0.contains(Deed::Stop(start.running[sibling].handle)),
{
    let event = loss(start, reply)->0;
    let at = a_sibling_is_stopped(start, event, index, sibling);
    let acts = start.machine.acts(event);
    let all = crate::orchestrator::exchange::all_carried_out(acts, start.processes, start.running);
    assert(start.after(reply).phase->Apply_0 == all);
    assert(all[begins(acts, start.processes, start.running, at)] == Deed::Stop(
        start.running[sibling].handle,
    ));
}

/// The siblings of a process that is gone or cannot be started are stopped last
/// one first: of two of them, the one that was started later goes earlier.
pub proof fn law_siblings_are_stopped_last_one_first(
    start: Starting,
    reply: Reply,
    index: int,
    first: int,
    second: int,
)
    requires
        super::laws::sound(start),
        ids_differ(start.processes),
        loses(start, reply, index),
        0 <= first < second < index,
    ensures
        exists|i: int, j: int|
            0 <= i < j < start.after(reply).phase->Apply_0.len()
                && #[trigger] start.after(reply).phase->Apply_0[i] == Deed::Stop(
                start.running[second].handle,
            ) && #[trigger] start.after(reply).phase->Apply_0[j] == Deed::Stop(
                start.running[first].handle,
            ),
{
    let event = loss(start, reply)->0;
    let acts = start.machine.acts(event);
    let all = crate::orchestrator::exchange::all_carried_out(acts, start.processes, start.running);
    let low = a_sibling_is_stopped(start, event, index, first);
    let high = a_sibling_is_stopped(start, event, index, second);
    if low < high {
        crate::orchestration::laws::law_processes_stop_in_reverse_order(
            start.machine,
            event,
            low,
            high,
            first,
            second,
        );
    }
    what_begins_later_is_later(acts, start.processes, start.running, high + 1, low);
    let i = begins(acts, start.processes, start.running, high);
    let j = begins(acts, start.processes, start.running, low);
    assert(start.after(reply).phase->Apply_0 == all);
    assert(all[i] == Deed::Stop(start.running[second].handle));
    assert(all[j] == Deed::Stop(start.running[first].handle));
}

/// What asks for a deed to be done.
pub open spec fn asking_for(deed: Deed) -> Ask {
    match deed {
        Deed::Stop(handle) => Ask::Stop(handle),
        other => Ask::Record(other),
    }
}

/// What the machine's actions take is done, all of it and in its order, before
/// the start goes on; whether a stop or a write worked makes no difference.
pub proof fn law_everything_decided_is_carried_out(start: Starting, replies: Seq<Reply>)
    requires
        start.wf(),
        start.phase is Apply,
        replies.len() == start.phase->Apply_0.len() - start.phase->Apply_1,
        forall|k: int|
            0 <= k < replies.len() ==> (#[trigger] replies[k] is Done || replies[k] is Stopped),
    ensures
        super::laws::after_all(start, replies) == start.go(start.phase->Apply_2),
        forall|k: int|
            0 <= k < replies.len() ==> #[trigger] super::laws::after_all(start, replies.take(k)).request()
                == asking_for(start.phase->Apply_0[start.phase->Apply_1 + k]),
    decreases replies.len(),
{
    let effects = start.phase->Apply_0;
    let at = start.phase->Apply_1;
    let next = start.after(replies[0]);
    let rest = replies.skip(1);
    assert(replies[0] is Done || replies[0] is Stopped);
    assert forall|k: int| 0 <= k < rest.len() implies (#[trigger] rest[k] is Done || rest[k]
        is Stopped) by {
        assert(rest[k] == replies[k + 1]);
    }
    assert(replies.take(0) =~= Seq::empty());
    if at + 1 < effects.len() {
        law_everything_decided_is_carried_out(next, rest);
        assert forall|k: int| 0 <= k < replies.len() implies #[trigger] super::laws::after_all(
            start,
            replies.take(k),
        ).request() == asking_for(effects[at + k]) by {
            if k > 0 {
                assert(replies.take(k).skip(1) =~= rest.take(k - 1));
                assert(replies.take(k)[0] == replies[0]);
                assert(super::laws::after_all(next, rest.take(k - 1)).request() == asking_for(
                    effects[at + 1 + (k - 1)],
                ));
            }
        }
    } else {
        assert(rest =~= Seq::empty());
        assert(super::laws::after_all(next, rest) == next);
    }
}

/// A process that cannot be started fails the project: the machine hears why,
/// that is what is written of the process, and what the machine then asks for
/// is carried out before anything else.
pub proof fn law_a_process_that_cannot_start_fails_the_project(
    start: Starting,
    reply: Reply,
    index: int,
    failure: Failure,
)
    requires
        super::laws::sound(start),
        start.bringing_up() == Some(index),
        refusal(start, reply) == Some(failure),
    ensures
        start.after(reply).machine == start.machine.after(
            Happening::PrepareFailed(index, failure.text()),
        ),
        start.after(reply).machine.status() == ProjectStatus::FAILED,
        start.after(reply).running == start.running,
        start.after(reply).phase == Phase::Apply(
            crate::orchestrator::exchange::all_carried_out(
                start.machine.acts(Happening::PrepareFailed(index, failure.text())),
                start.processes,
                start.running,
            ),
            0,
            Next::Abandon(failure),
        ),
        start.after(reply).phase->Apply_0[0] == (Deed::Record {
            process_id: start.processes[index].id@,
            state: ProcessState::Failed,
            reason: Some(failure.text()),
            handle: crate::orchestrator::exchange::supervisor_of(
                start.running,
                start.processes[index].id@,
            ),
        }),
{
    let acts = start.machine.acts(Happening::PrepareFailed(index, failure.text()));
    crate::orchestration::laws::law_a_failed_preparation_is_reported(
        start.machine,
        index,
        failure.text(),
    );
    each_is_carried_out(acts, start.processes, start.running, 0);
    let all = crate::orchestrator::exchange::all_carried_out(acts, start.processes, start.running);
    let one = crate::orchestrator::exchange::carried_out(
        acts[0],
        start.processes,
        start.running,
    );
    assert(acts.take(0) =~= Seq::empty());
    let from = begins(acts, start.processes, start.running, 0);
    assert(all[from + 0] == one[0]);
}

/// A start that could not start a process stops everything that runs, and then
/// ends with that failure: once what the machine asked for is done, every
/// process it had started is told to stop, last one first.
pub proof fn law_a_process_that_cannot_start_leaves_nothing_running(
    start: Starting,
    reply: Reply,
    failure: Failure,
    decided: Seq<Reply>,
    stopped: Seq<Reply>,
)
    requires
        super::laws::sound(start),
        refusal(start, reply) == Some(failure),
        decided.len() == start.after(reply).phase->Apply_0.len(),
        forall|k: int|
            0 <= k < decided.len() ==> (#[trigger] decided[k] is Done || decided[k] is Stopped),
        stopped.len() == start.running.len(),
        forall|k: int| 0 <= k < stopped.len() ==> #[trigger] stopped[k] is Stopped,
    ensures
        super::laws::after_all(start.after(reply), decided) == start.after(reply).stopping(
            start.running.len() as int,
            failure,
        ),
        super::laws::after_all(
            super::laws::after_all(start.after(reply), decided),
            stopped,
        ).phase == Phase::Finished(Err(failure)),
        forall|k: int|
            0 <= k < stopped.len() ==> #[trigger] super::laws::after_all(
                super::laws::after_all(start.after(reply), decided),
                stopped.take(k),
            ).request() == Ask::Stop(start.running[start.running.len() - 1 - k].handle),
{
    let index = start.bringing_up()->0;
    law_a_process_that_cannot_start_fails_the_project(start, reply, index, failure);
    let next = start.after(reply);
    super::laws::law_a_start_stays_sound(start, reply);
    law_everything_decided_is_carried_out(next, decided);
    let left = super::laws::after_all(next, decided);
    if start.running.len() > 0 {
        super::laws::law_an_abandoned_start_stops_what_runs(left, stopped);
    }
}

/// A start that fails leaves nothing running behind it: where something runs,
/// it ends with a failure only once the first of what runs was told to stop,
/// the last of them to be told, or where every process is up and only that
/// could not be written.
pub proof fn law_a_start_fails_with_everything_told_to_stop(start: Starting, reply: Reply)
    requires
        super::laws::sound(start),
        !(start.phase is Finished),
        start.after(reply).phase matches Phase::Finished(Err(_)),
        start.running.len() > 0,
    ensures
        match start.phase {
            Phase::StopAll(left, failure) => left == 1 && start.request() == Ask::Stop(
                start.running[0].handle,
            ),
            Phase::RecordStarted => start.running.len() == start.processes.len()
                && start.machine.status() == ProjectStatus::RUNNING,
            _ => false,
        },
{
    if refusal(start, reply) is Some {
        law_a_process_that_cannot_start_fails_the_project(
            start,
            reply,
            start.bringing_up()->0,
            refusal(start, reply)->0,
        );
    }
}

} // verus!
