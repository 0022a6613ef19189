//! What holds of every project the machine drives, whatever happens to it.

use super::{Act, Happening, ProcessState, Project, ProjectStatus};
use vstd::prelude::*;

verus! {

/// Whether a process came up: it settled and nothing else was asked of it, or
/// its health check passed.
pub open spec fn comes_up(project: Project, event: Happening, index: int) -> bool {
    (event == Happening::Settled(index) && !project.gated(index)) || (event == Happening::Healthy(
        index,
    ) && project.gated(index))
}

/// The first `up` processes run, the one after them is starting, and the rest
/// wait.
pub open spec fn starting_in_order(project: Project, up: int) -> bool {
    &&& project.wf()
    &&& !project.stopping
    &&& project.has(up)
    &&& forall|i: int| 0 <= i < up ==> #[trigger] project.states[i] is Running
    &&& project.states[up] is Starting
    &&& forall|i: int| up < i < project.states.len() ==> #[trigger] project.states[i] is Pending
}

/// Whether the actions tell the process at `index` to stop.
pub open spec fn stops(acts: Seq<Act>, index: int) -> bool {
    acts.contains(Act::Stop(index))
}

/// Whether the actions start the process at `index`.
pub open spec fn spawns(acts: Seq<Act>, index: int) -> bool {
    acts.contains(Act::Spawn(index))
}

/// The project after a whole series of events.
pub open spec fn after_all(project: Project, events: Seq<Happening>) -> Project
    decreases events.len(),
{
    if events.len() == 0 {
        project
    } else {
        after_all(project.after(events[0]), events.skip(1))
    }
}

/// `first_in` stops at a process in that state, and passes over none.
proof fn first_in_is_the_first(states: Seq<ProcessState>, state: ProcessState, from: int)
    requires
        0 <= from <= states.len(),
    ensures
        from <= super::first_in(states, state, from) <= states.len(),
        super::first_in(states, state, from) < states.len() ==> states[super::first_in(states, state, from)]
            == state,
        forall|i: int|
            from <= i < super::first_in(states, state, from) ==> #[trigger] states[i] != state,
    decreases states.len() - from,
{
    if from < states.len() && states[from] != state {
        first_in_is_the_first(states, state, from + 1);
    }
}

/// Which actions stop a project, and in which order.
proof fn stops_are_reversed(states: Seq<ProcessState>, except: Option<int>, end: int)
    requires
        0 <= end <= states.len(),
    ensures
        forall|k: int|
            0 <= k < super::stops_below(states, except, end).len() ==> match #[trigger] super::stops_below(
                states,
                except,
                end,
            )[k] {
                Act::Stop(i) => 0 <= i < end && super::still_up(states, except, i),
                Act::Write(i, state, reason) => 0 <= i < end && super::still_up(states, except, i) && state
                    is Stopping && reason is None,
                _ => false,
            },
        forall|i: int|
            0 <= i < end && super::still_up(states, except, i) ==> #[trigger] stops(super::stops_below(states, except, end), i),
        forall|k: int, l: int|
            0 <= k < l < super::stops_below(states, except, end).len() && (
            #[trigger] super::stops_below(states, except, end)[k]) is Stop && (
            #[trigger] super::stops_below(states, except, end)[l]) is Stop ==> super::stops_below(
                states,
                except,
                end,
            )[k]->Stop_0 > super::stops_below(states, except, end)[l]->Stop_0,
    decreases end,
{
    if end > 0 {
        stops_are_reversed(states, except, end - 1);
        let rest = super::stops_below(states, except, end - 1);
        let whole = super::stops_below(states, except, end);
        if super::still_up(states, except, end - 1) {
            assert(whole[1] == Act::Stop(end - 1));
            assert forall|k: int| 2 <= k < whole.len() implies whole[k] == rest[k - 2] by {}
            assert forall|i: int| 0 <= i < end && super::still_up(states, except, i) implies #[trigger] stops(whole, i) by {
                if i < end - 1 {
                    assert(stops(rest, i));
                    let k = choose|k: int| 0 <= k < rest.len() && rest[k] == Act::Stop(i);
                    assert(whole[k + 2] == Act::Stop(i));
                }
            }
        }
    }
}

/// Every operation keeps one state for each process, and changes neither which
/// processes there are nor which of them have a health check.
pub proof fn law_processes_are_kept(project: Project, event: Happening)
    requires
        project.wf(),
    ensures
        project.started().wf(),
        project.after(event).wf(),
        project.started().checks == project.checks,
        project.after(event).checks == project.checks,
{
}

/// A start spawns the first process and no other, and the project is starting.
pub proof fn law_a_start_spawns_the_first_process(project: Project)
    requires
        project.wf(),
        project.checks.len() > 0,
    ensures
        starting_in_order(project.started(), 0),
        project.start_acts() == seq![
            Act::Write(0, ProcessState::Starting, None),
            Act::Spawn(0),
            Act::Project(ProjectStatus::STARTING),
        ],
{
    let started = project.started();
    assert(started.states[0] is Starting);
    assert(project.start_acts() =~= seq![
        Act::Write(0, ProcessState::Starting, None),
        Act::Spawn(0),
        Act::Project(ProjectStatus::STARTING),
    ]);
}

/// A project of no processes does nothing when it starts, and is stopped.
pub proof fn law_an_empty_project_starts_nothing(project: Project)
    requires
        project.wf(),
        project.checks.len() == 0,
    ensures
        project.start_acts() == Seq::<Act>::empty(),
        project.started().status() == ProjectStatus::STOPPED,
{
}

/// A process is spawned only because the one before it came up while nobody was
/// stopping the project. It is then the first that waits, it starts, and it is
/// the only one spawned.
pub proof fn law_a_spawn_is_the_first_one_waiting(
    project: Project,
    event: Happening,
    position: int,
    spawned: int,
)
    requires
        0 <= position < project.acts(event).len(),
        project.acts(event)[position] == Act::Spawn(spawned),
    ensures
        !project.stopping,
        exists|index: int| #[trigger]
            comes_up(project, event, index) && {
                let up = project.moved(index, ProcessState::Running);
                &&& project.has(index)
                &&& spawned == index + 1
                &&& up.has(spawned)
                &&& up.states[spawned] is Pending
                &&& forall|i: int| 0 <= i < spawned ==> !(#[trigger] up.states[i] is Pending)
            },
        project.after(event).states[spawned] is Starting,
        forall|other: int|
            0 <= other < project.acts(event).len() && other != position
                ==> !(#[trigger] project.acts(event)[other] is Spawn),
{
    match event {
        Happening::Settled(index) | Happening::Healthy(index) => {
            let up = project.moved(index, ProcessState::Running);
            first_in_is_the_first(up.states, ProcessState::Pending, 0);
            assert(comes_up(project, event, index));
        },
        Happening::Exited(index, terminal) => {
            let end = project.end_of(index);
            let left = project.moved(index, end);
            stops_are_reversed(left.states, Some(index), left.states.len() as int);
            assert(false);
        },
        Happening::StopRequested => {
            stops_are_reversed(project.states, None, project.states.len() as int);
            assert(false);
        },
        Happening::PrepareFailed(index, reason) => {
            let left = project.moved(index, ProcessState::Failed);
            stops_are_reversed(left.states, Some(index), left.states.len() as int);
            assert(false);
        },
    }
}

/// A process with a health check has not started merely by surviving: settling
/// changes nothing and asks for nothing. Nor does a report of health from a
/// process that has no health check.
pub proof fn law_a_health_check_gates_the_start(project: Project, index: int)
    ensures
        project.gated(index) ==> project.after(Happening::Settled(index)) == project
            && project.acts(Happening::Settled(index)) == Seq::<Act>::empty(),
        !project.gated(index) ==> project.after(Happening::Healthy(index)) == project
            && project.acts(Happening::Healthy(index)) == Seq::<Act>::empty(),
{
}

/// While processes come up in order, each one that comes up starts the next,
/// and the project keeps starting.
pub proof fn law_processes_start_in_order(project: Project, event: Happening, up: int)
    requires
        starting_in_order(project, up),
        comes_up(project, event, up),
        up + 1 < project.states.len(),
    ensures
        starting_in_order(project.after(event), up + 1),
        project.acts(event) == seq![
            Act::Write(up, ProcessState::Running, None),
            Act::Write(up + 1, ProcessState::Starting, None),
            Act::Spawn(up + 1),
            Act::Project(ProjectStatus::STARTING),
        ],
{
    let moved = project.moved(up, ProcessState::Running);
    first_in_is_the_first(moved.states, ProcessState::Pending, 0);
    let next = super::first_in(moved.states, ProcessState::Pending, 0);
    assert(moved.states[up + 1] is Pending);
    assert(forall|i: int| 0 <= i <= up ==> #[trigger] moved.states[i] is Running);
    if next < up + 1 {
        assert(moved.states[next] is Running);
    }
    assert(next == up + 1);
    let after = project.after(event);
    assert(after.states[up + 1] is Starting);
    assert(super::some_in(after.states, ProcessState::Starting));
    assert(after.status() == ProjectStatus::STARTING);
    assert(project.acts(event) =~= seq![
        Act::Write(up, ProcessState::Running, None),
        Act::Write(up + 1, ProcessState::Starting, None),
        Act::Spawn(up + 1),
        Act::Project(ProjectStatus::STARTING),
    ]);
}

/// Once the last process has come up in order, every process runs and so does
/// the project.
pub proof fn law_the_last_one_up_completes_the_start(project: Project, event: Happening, up: int)
    requires
        starting_in_order(project, up),
        comes_up(project, event, up),
        up + 1 == project.states.len(),
    ensures
        forall|i: int|
            0 <= i < project.states.len() ==> #[trigger] project.after(event).states[i] is Running,
        project.acts(event) == seq![
            Act::Write(up, ProcessState::Running, None),
            Act::Project(ProjectStatus::RUNNING),
        ],
{
    let moved = project.moved(up, ProcessState::Running);
    first_in_is_the_first(moved.states, ProcessState::Pending, 0);
    assert(forall|i: int| 0 <= i <= up ==> #[trigger] moved.states[i] is Running);
    assert(project.after(event).states =~= moved.states);
    assert(project.acts(event) =~= seq![
        Act::Write(up, ProcessState::Running, None),
        Act::Project(ProjectStatus::RUNNING),
    ]);
}

/// An exit that the supervisor will try again concerns that process alone:
/// nothing is stopped, nothing else moves.
pub proof fn law_a_restart_disturbs_nobody_else(project: Project, index: int)
    requires
        !project.stopping,
        project.has(index),
    ensures
        project.after(Happening::Exited(index, false)) == project.moved(
            index,
            ProcessState::Restarting,
        ),
        project.acts(Happening::Exited(index, false)) == seq![
            Act::Write(index, ProcessState::Restarting, None),
            Act::Project(project.after(Happening::Exited(index, false)).status()),
        ],
{
    assert(project.acts(Happening::Exited(index, false)) =~= seq![
        Act::Write(index, ProcessState::Restarting, None),
        Act::Project(project.after(Happening::Exited(index, false)).status()),
    ]);
}

/// A process that is gone for good takes the project with it: it crashed if it
/// had run and failed if it had not, every other process still up is told to
/// stop, and no other is.
pub proof fn law_a_terminal_exit_stops_every_other_process(
    project: Project,
    event: Happening,
    index: int,
)
    requires
        project.has(index),
        (event == Happening::Exited(index, true) && !project.stopping) || (event
            is PrepareFailed && event->PrepareFailed_0 == index),
    ensures
        project.after(event).states[index] == if event is Exited && (project.states[index]
            is Running || project.states[index] is Restarting) {
            ProcessState::Crashed
        } else {
            ProcessState::Failed
        },
        forall|i: int|
            0 <= i < project.states.len() && i != index ==> #[trigger] project.after(
                event,
            ).states[i] == if project.states[i].finished() {
                project.states[i]
            } else {
                ProcessState::Stopping
            },
        forall|i: int|
            #[trigger] stops(project.acts(event), i) <==> project.has(i) && i != index
                && !project.states[i].finished(),
{
    let end = if event is Exited {
        project.end_of(index)
    } else {
        ProcessState::Failed
    };
    let left = project.moved(index, end);
    stops_are_reversed(left.states, Some(index), left.states.len() as int);
    let told = left.stops(Some(index));
    let acts = project.acts(event);
    assert(acts.len() == told.len() + 2);
    assert forall|i: int|
        #[trigger] stops(acts, i) <==> project.has(i) && i != index
            && !project.states[i].finished() by {
        if stops(acts, i) {
            let k = choose|k: int| 0 <= k < acts.len() && acts[k] == Act::Stop(i);
            assert(acts[k] == told[k - 1]);
        }
        if project.has(i) && i != index && !project.states[i].finished() {
            assert(super::still_up(left.states, Some(index), i));
            assert(stops(told, i));
            let k = choose|k: int| 0 <= k < told.len() && told[k] == Act::Stop(i);
            assert(acts[k + 1] == Act::Stop(i));
        }
    }
}

/// After a process is gone for good the project is failed or crashed: failed
/// where some process never ran, crashed otherwise.
pub proof fn law_a_terminal_exit_is_reported(project: Project, index: int)
    requires
        project.has(index),
        !project.stopping,
    ensures
        project.after(Happening::Exited(index, true)).status() == if super::some_in(
            project.moved(index, project.end_of(index)).states,
            ProcessState::Failed,
        ) {
            ProjectStatus::FAILED
        } else {
            ProjectStatus::CRASHED
        },
{
    let left = project.moved(index, project.end_of(index));
    let after = project.after(Happening::Exited(index, true));
    assert(after.states[index] == project.end_of(index));
    if super::some_in(left.states, ProcessState::Failed) {
        let i = choose|i: int| 0 <= i < left.states.len() && left.states[i] is Failed;
        assert(after.states[i] is Failed);
    } else {
        assert(left.states[index] is Crashed);
        assert forall|i: int| 0 <= i < after.states.len() implies !(#[trigger] after.states[i]
            is Failed) by {
            assert(!(left.states[i] is Failed));
        }
    }
}

/// Asking a project to stop tells exactly the processes still up to stop.
pub proof fn law_a_stop_request_stops_everything_up(project: Project)
    ensures
        project.after(Happening::StopRequested).stopping,
        forall|i: int|
            0 <= i < project.states.len() ==> #[trigger] project.after(
                Happening::StopRequested,
            ).states[i] == if project.states[i].finished() {
                project.states[i]
            } else {
                ProcessState::Stopping
            },
        forall|i: int|
            #[trigger] stops(project.acts(Happening::StopRequested), i)
                <==> project.has(i) && !project.states[i].finished(),
{
    let told = project.stops(None);
    let acts = project.acts(Happening::StopRequested);
    stops_are_reversed(project.states, None, project.states.len() as int);
    assert forall|i: int|
        #[trigger] stops(acts, i) <==> project.has(i)
            && !project.states[i].finished() by {
        if stops(acts, i) {
            let k = choose|k: int| 0 <= k < acts.len() && acts[k] == Act::Stop(i);
            assert(acts[k] == told[k]);
        }
        if project.has(i) && !project.states[i].finished() {
            assert(super::still_up(project.states, None, i));
            assert(stops(told, i));
            let k = choose|k: int| 0 <= k < told.len() && told[k] == Act::Stop(i);
            assert(acts[k] == Act::Stop(i));
        }
    }
}

/// Whatever makes a project stop its processes, it stops them last one first,
/// so that what a process was started against outlives it.
pub proof fn law_processes_stop_in_reverse_order(
    project: Project,
    event: Happening,
    earlier: int,
    later: int,
    first: int,
    second: int,
)
    requires
        0 <= earlier < later < project.acts(event).len(),
        project.acts(event)[earlier] == Act::Stop(first),
        project.acts(event)[later] == Act::Stop(second),
    ensures
        first > second,
{
    let acts = project.acts(event);
    match event {
        Happening::Settled(index) | Happening::Healthy(index) => {},
        Happening::Exited(index, terminal) => {
            let left = project.moved(index, project.end_of(index));
            let note = project.note(index, project.end_of(index), None);
            let told = left.stops(Some(index));
            stops_are_reversed(left.states, Some(index), left.states.len() as int);
            if !project.stopping && terminal {
                assert(acts[earlier] == told[earlier - note.len()]);
                assert(acts[later] == told[later - note.len()]);
            }
        },
        Happening::StopRequested => {
            stops_are_reversed(project.states, None, project.states.len() as int);
            assert(acts[earlier] == project.stops(None)[earlier]);
            assert(acts[later] == project.stops(None)[later]);
        },
        Happening::PrepareFailed(index, reason) => {
            let left = project.moved(index, ProcessState::Failed);
            let note = project.note(index, ProcessState::Failed, Some(reason));
            let told = left.stops(Some(index));
            stops_are_reversed(left.states, Some(index), left.states.len() as int);
            assert(acts[earlier] == told[earlier - note.len()]);
            assert(acts[later] == told[later - note.len()]);
        },
    }
}

/// A process exiting because it was told to has stopped, whatever the
/// supervisor says of trying again: it neither crashed nor restarts.
pub proof fn law_an_exit_during_a_stop_is_a_stop(project: Project, index: int, terminal: bool)
    requires
        project.stopping,
        project.has(index),
    ensures
        project.after(Happening::Exited(index, terminal)) == project.moved(
            index,
            ProcessState::Stopped,
        ),
        project.acts(Happening::Exited(index, terminal)) == seq![
            Act::Write(index, ProcessState::Stopped, None),
            Act::Project(project.after(Happening::Exited(index, terminal)).status()),
        ],
{
    assert(project.acts(Happening::Exited(index, terminal)) =~= seq![
        Act::Write(index, ProcessState::Stopped, None),
        Act::Project(project.after(Happening::Exited(index, terminal)).status()),
    ]);
}

/// Once a stop was asked for, no event takes it back or brings a process up:
/// each process stays where it is or is on its way down.
pub proof fn law_a_stop_is_not_undone(project: Project, event: Happening)
    requires
        project.stopping,
    ensures
        project.after(event).stopping,
        forall|i: int|
            0 <= i < project.states.len() ==> #[trigger] project.after(event).states[i]
                == project.states[i] || project.after(event).states[i] is Stopping
                || project.after(event).states[i].finished(),
        forall|i: int| !#[trigger] spawns(project.acts(event), i),
{
    assert forall|i: int| !#[trigger] spawns(project.acts(event), i) by {
        if spawns(project.acts(event), i) {
            let k = choose|k: int|
                0 <= k < project.acts(event).len() && project.acts(event)[k] == Act::Spawn(i);
            law_a_spawn_is_the_first_one_waiting(project, event, k, i);
        }
    }
}

/// Once everything that was up has exited, a stopped project holds nothing
/// that is up, and it reads as stopped where nothing failed or crashed before.
pub proof fn law_a_stop_ends_stopped(project: Project, events: Seq<Happening>)
    requires
        project.stopping,
        forall|k: int| 0 <= k < events.len() ==> #[trigger] events[k] is Exited,
        forall|i: int|
            0 <= i < project.states.len() && !(#[trigger] project.states[i]).finished() ==> exists|
                k: int,
            |
                0 <= k < events.len() && (#[trigger] events[k])->Exited_0 == i,
    ensures
        forall|i: int|
            0 <= i < project.states.len() ==> (#[trigger] after_all(
                project,
                events,
            ).states[i]).finished(),
        !super::some_in(project.states, ProcessState::Failed) && !super::some_in(
            project.states,
            ProcessState::Crashed,
        ) ==> after_all(project, events).status() == ProjectStatus::STOPPED,
    decreases events.len(),
{
    if events.len() == 0 {
        assert forall|i: int| 0 <= i < project.states.len() implies (
        #[trigger] project.states[i]).finished() by {}
        assert(after_all(project, events) == project);
        if !super::some_in(project.states, ProcessState::Failed) && !super::some_in(
            project.states,
            ProcessState::Crashed,
        ) {
            assert forall|i: int| 0 <= i < project.states.len() implies #[trigger] project.states[i]
                is Stopped by {
                assert(project.states[i].finished());
                assert(project.states[i] != ProcessState::Failed);
                assert(project.states[i] != ProcessState::Crashed);
            }
            law_status_is_stopped(project);
        }
    } else {
        let next = project.after(events[0]);
        let rest = events.skip(1);
        let gone = events[0]->Exited_0;
        assert(next == project.moved(gone, ProcessState::Stopped));
        assert forall|i: int|
            0 <= i < next.states.len() && !(#[trigger] next.states[i]).finished() implies exists|
            k: int,
        |
            0 <= k < rest.len() && (#[trigger] rest[k])->Exited_0 == i by {
            assert(i != gone);
            assert(!project.states[i].finished());
            let k = choose|k: int| 0 <= k < events.len() && (#[trigger] events[k])->Exited_0 == i;
            assert(rest[k - 1] == events[k]);
        }
        assert forall|k: int| 0 <= k < rest.len() implies #[trigger] rest[k] is Exited by {
            assert(rest[k] == events[k + 1]);
        }
        law_a_stop_ends_stopped(next, rest);
        if !super::some_in(project.states, ProcessState::Failed) && !super::some_in(
            project.states,
            ProcessState::Crashed,
        ) {
            assert forall|i: int| 0 <= i < next.states.len() implies next.states[i]
                != ProcessState::Failed && next.states[i] != ProcessState::Crashed by {
                assert(project.states[i] != ProcessState::Failed);
                assert(project.states[i] != ProcessState::Crashed);
            }
        }
    }
}

/// A project whose processes have all stopped, or that has none, is stopped.
pub proof fn law_status_is_stopped(project: Project)
    requires
        forall|i: int| 0 <= i < project.states.len() ==> #[trigger] project.states[i] is Stopped,
    ensures
        project.status() == ProjectStatus::STOPPED,
{
    if project.states.len() > 0 {
        assert(project.states[0] is Stopped);
    }
}

/// A project runs exactly when it has processes and every one of them runs.
pub proof fn law_running_means_everything_runs(project: Project)
    ensures
        project.status() == ProjectStatus::RUNNING <==> project.states.len() > 0 && forall|i: int|
            0 <= i < project.states.len() ==> #[trigger] project.states[i] is Running,
{
    if project.states.len() > 0 && forall|i: int|
        0 <= i < project.states.len() ==> #[trigger] project.states[i] is Running {
        assert(project.states[0] is Running);
    }
}

/// One process in trouble is what the project reports: a failure before a
/// crash, a crash before a restart, a restart before a start.
pub proof fn law_trouble_is_not_hidden(project: Project)
    ensures
        project.status() == ProjectStatus::FAILED <==> super::some_in(
            project.states,
            ProcessState::Failed,
        ),
        project.status() == ProjectStatus::CRASHED <==> super::some_in(
            project.states,
            ProcessState::Crashed,
        ) && !super::some_in(project.states, ProcessState::Failed),
        project.status() == ProjectStatus::RESTARTING <==> super::some_in(
            project.states,
            ProcessState::Restarting,
        ) && !super::some_in(project.states, ProcessState::Failed) && !super::some_in(
            project.states,
            ProcessState::Crashed,
        ),
{
}

/// Everything done about an event ends by writing the status the project then
/// has.
pub proof fn law_the_last_thing_written_is_the_status(project: Project, event: Happening)
    requires
        !project.silent(event),
    ensures
        project.acts(event).len() > 0,
        project.acts(event).last() == Act::Project(project.after(event).status()),
{
}

/// An install or build that fails is the process's own failure: its reason is
/// what is written, and the project has failed.
pub proof fn law_a_failed_preparation_is_reported(project: Project, index: int, reason: Seq<char>)
    requires
        project.has(index),
    ensures
        project.acts(Happening::PrepareFailed(index, reason))[0] == Act::Write(
            index,
            ProcessState::Failed,
            Some(reason),
        ),
        project.after(Happening::PrepareFailed(index, reason)).status() == ProjectStatus::FAILED,
{
    let after = project.after(Happening::PrepareFailed(index, reason));
    assert(after.states[index] is Failed);
    assert(super::some_in(after.states, ProcessState::Failed));
}

/// A project with a process restarting, and none that failed or crashed, is
/// restarting.
pub proof fn law_a_restart_is_reported(project: Project, index: int)
    requires
        !project.stopping,
        project.has(index),
        forall|i: int|
            0 <= i < project.states.len() && i != index ==> #[trigger] project.states[i]
                != ProcessState::Failed && project.states[i] != ProcessState::Crashed,
    ensures
        project.after(Happening::Exited(index, false)).status() == ProjectStatus::RESTARTING,
{
    let after = project.after(Happening::Exited(index, false));
    assert(after.states[index] is Restarting);
    assert forall|i: int| 0 <= i < after.states.len() implies after.states[i]
        != ProcessState::Failed && after.states[i] != ProcessState::Crashed by {
        if i != index {
            assert(after.states[i] == project.states[i]);
        }
    }
}

/// The process an event concerns, where it concerns one.
pub open spec fn process_of(event: Happening) -> Option<int> {
    match event {
        Happening::Settled(index) => Some(index),
        Happening::Healthy(index) => Some(index),
        Happening::Exited(index, terminal) => Some(index),
        Happening::StopRequested => None,
        Happening::PrepareFailed(index, reason) => Some(index),
    }
}

/// An event for a process that does not exist is ignored: it moves no process
/// and neither spawns nor stops one. At most the status is written, which is
/// the one the project had.
pub proof fn law_a_stale_event_is_ignored(project: Project, event: Happening, index: int)
    requires
        project.wf(),
        !project.has(index),
        process_of(event) == Some(index),
    ensures
        project.after(event) == project,
        project.acts(event) == Seq::<Act>::empty() || project.acts(event) == seq![
            Act::Project(project.status()),
        ],
        forall|i: int|
            !#[trigger] spawns(project.acts(event), i) && !#[trigger] stops(
                project.acts(event),
                i,
            ),
{
    let acts = project.acts(event);
    if !project.silent(event) {
        assert(acts =~= seq![Act::Project(project.status())]);
    }
}

/// A start is strictly sequential: whatever happened before, a process is
/// spawned only because the one right before it settled or reported healthy.
pub proof fn law_a_start_is_strictly_sequential(project: Project, event: Happening, spawned: int)
    requires
        project.wf(),
        spawns(project.acts(event), spawned),
    ensures
        event == Happening::Settled(spawned - 1) || event == Happening::Healthy(spawned - 1),
        comes_up(project, event, spawned - 1),
        project.has(spawned - 1),
        project.states[spawned] is Pending,
        project.after(event).states[spawned - 1] is Running,
{
    let acts = project.acts(event);
    let position = choose|k: int| 0 <= k < acts.len() && acts[k] == Act::Spawn(spawned);
    law_a_spawn_is_the_first_one_waiting(project, event, position, spawned);
}

/// The words that are written down tell every two states of a process apart,
/// but for one that waits for its turn and one that is stopped.
pub proof fn law_words_tell_states_apart(one: ProcessState, other: ProcessState)
    ensures
        one.word() == other.word() <==> one == other || ((one is Pending || one is Stopped) && (other
            is Pending || other is Stopped)),
{
    reveal_strlit("STOPPED");
    reveal_strlit("STARTING");
    reveal_strlit("RUNNING");
    reveal_strlit("RESTARTING");
    reveal_strlit("STOPPING");
    reveal_strlit("CRASHED");
    reveal_strlit("FAILED");
    assert("STOPPED"@[0] == 'S' && "STOPPED"@.len() == 7);
    assert("STARTING"@[2] == 'A' && "STARTING"@.len() == 8);
    assert("RUNNING"@[0] == 'R' && "RUNNING"@.len() == 7);
    assert("RESTARTING"@.len() == 10);
    assert("STOPPING"@[2] == 'O' && "STOPPING"@.len() == 8);
    assert("CRASHED"@[0] == 'C' && "CRASHED"@.len() == 7);
    assert("FAILED"@.len() == 6);
}

/// The words that are written down tell every two statuses of a project apart.
pub proof fn law_words_tell_statuses_apart(one: ProjectStatus, other: ProjectStatus)
    ensures
        one.word() == other.word() <==> one == other,
{
    reveal_strlit("STOPPED");
    reveal_strlit("STARTING");
    reveal_strlit("RUNNING");
    reveal_strlit("RESTARTING");
    reveal_strlit("CRASHED");
    reveal_strlit("FAILED");
    assert("STOPPED"@[0] == 'S' && "STOPPED"@.len() == 7);
    assert("STARTING"@.len() == 8);
    assert("RUNNING"@[0] == 'R' && "RUNNING"@.len() == 7);
    assert("RESTARTING"@.len() == 10);
    assert("CRASHED"@[0] == 'C' && "CRASHED"@.len() == 7);
    assert("FAILED"@.len() == 6);
}

} // verus!
