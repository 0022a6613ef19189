//! What every event means for every process, said of the states themselves.

use super::{Act, Happening, ProcessState, Project, ProjectStatus};
use vstd::prelude::*;

verus! {

proof fn the_first_waiting_is_ahead(states: Seq<ProcessState>, from: int)
    requires
        0 <= from <= states.len(),
    ensures
        from <= super::first_in(states, ProcessState::Pending, from) <= states.len(),
        super::first_in(states, ProcessState::Pending, from) < states.len()
            ==> states[super::first_in(states, ProcessState::Pending, from)] is Pending,
        forall|i: int|
            from <= i < super::first_in(states, ProcessState::Pending, from)
                ==> !(#[trigger] states[i] is Pending),
    decreases states.len() - from,
{
    if from < states.len() && !(states[from] is Pending) {
        the_first_waiting_is_ahead(states, from + 1);
    }
}

/// A process that exists and comes up runs, wherever it was before: one that
/// has no check by settling, one that has one by reporting healthy. That it
/// runs is the first thing written. The one right after it starts where it is
/// the first that waits, and nobody else moves.
pub proof fn law_a_process_that_comes_up_runs(project: Project, event: Happening, index: int)
    requires
        project.checks.len() == project.states.len(),
        0 <= index < project.states.len(),
        !project.stopping,
        event == if project.checks[index] {
            Happening::Healthy(index)
        } else {
            Happening::Settled(index)
        },
    ensures
        ({
            let next_goes = index + 1 < project.states.len() && project.states[index + 1] is Pending
                && forall|i: int| 0 <= i < index ==> !(#[trigger] project.states[i] is Pending);
            let after = project.after(event);
            &&& after.checks == project.checks
            &&& !after.stopping
            &&& after.states.len() == project.states.len()
            &&& after.states[index] is Running
            &&& forall|i: int|
                0 <= i < project.states.len() && i != index && !(i == index + 1 && next_goes)
                    ==> #[trigger] after.states[i] == project.states[i]
            &&& next_goes ==> after.states[index + 1] is Starting
            &&& project.acts(event) == if next_goes {
                seq![
                    Act::Write(index, ProcessState::Running, None),
                    Act::Write(index + 1, ProcessState::Starting, None),
                    Act::Spawn(index + 1),
                    Act::Project(after.status()),
                ]
            } else {
                seq![
                    Act::Write(index, ProcessState::Running, None),
                    Act::Project(after.status()),
                ]
            }
        }),
{
    let up = project.states.update(index, ProcessState::Running);
    the_first_waiting_is_ahead(up, 0);
    let first = super::first_in(up, ProcessState::Pending, 0);
    let next_goes = index + 1 < project.states.len() && project.states[index + 1] is Pending
        && forall|i: int| 0 <= i < index ==> !(#[trigger] project.states[i] is Pending);
    if next_goes {
        assert(up[index + 1] is Pending);
        if first < index + 1 {
            assert(up[first] is Pending);
            assert(project.states[first] is Pending);
        }
    } else if first == index + 1 && first < up.len() {
        assert(up[index + 1] is Pending);
        assert forall|i: int| 0 <= i < index implies !(#[trigger] project.states[i] is Pending) by {
            assert(up[i] == project.states[i]);
        }
    }
    let after = project.after(event);
    assert(project.acts(event) =~= if next_goes {
        seq![
            Act::Write(index, ProcessState::Running, None),
            Act::Write(index + 1, ProcessState::Starting, None),
            Act::Spawn(index + 1),
            Act::Project(after.status()),
        ]
    } else {
        seq![Act::Write(index, ProcessState::Running, None), Act::Project(after.status())]
    });
}

/// A project is running again once the one process that was down comes up.
pub proof fn law_the_last_one_back_makes_the_project_run(
    project: Project,
    event: Happening,
    index: int,
)
    requires
        project.checks.len() == project.states.len(),
        0 <= index < project.states.len(),
        !project.stopping,
        event == if project.checks[index] {
            Happening::Healthy(index)
        } else {
            Happening::Settled(index)
        },
        forall|i: int|
            0 <= i < project.states.len() && i != index ==> #[trigger] project.states[i] is Running,
    ensures
        project.after(event).status() == ProjectStatus::RUNNING,
        project.acts(event).last() == Act::Project(ProjectStatus::RUNNING),
{
    law_a_process_that_comes_up_runs(project, event, index);
    super::laws::law_running_means_everything_runs(project.after(event));
    let after = project.after(event);
    assert forall|i: int| 0 <= i < after.states.len() implies #[trigger] after.states[i]
        is Running by {
        if i != index {
            assert(project.states[i] is Running);
        }
    }
}

/// A restart and back again changes nothing: a process of a running project
/// that exits, is tried again and comes up leaves the project as it was.
pub proof fn law_a_restart_is_got_over(project: Project, back: Happening, index: int)
    requires
        project.checks.len() == project.states.len(),
        0 <= index < project.states.len(),
        !project.stopping,
        forall|i: int| 0 <= i < project.states.len() ==> #[trigger] project.states[i] is Running,
        back == if project.checks[index] {
            Happening::Healthy(index)
        } else {
            Happening::Settled(index)
        },
    ensures
        project.after(Happening::Exited(index, false)).after(back) == project,
        project.after(Happening::Exited(index, false)).status() == ProjectStatus::RESTARTING,
        project.after(Happening::Exited(index, false)).after(back).status()
            == ProjectStatus::RUNNING,
{
    let down = project.after(Happening::Exited(index, false));
    law_an_exit_that_is_retried_moves_one_process(project, index);
    law_a_process_that_comes_up_runs(down, back, index);
    law_the_last_one_back_makes_the_project_run(down, back, index);
    assert(down.states[index] is Restarting);
    assert(super::some_in(down.states, ProcessState::Restarting));
    let again = down.after(back);
    assert forall|i: int| 0 <= i < project.states.len() implies again.states[i]
        == project.states[i] by {
        assert(project.states[i] is Running);
        if i != index {
            assert(down.states[i] == project.states[i]);
            assert(again.states[i] == down.states[i]);
        }
    }
    assert(again.states =~= project.states);
}

/// Nothing comes up in the wrong way: settling is nothing to a process with a
/// check, and neither is health to one without, and both are nothing to a
/// project that is stopping but for its status being written.
pub proof fn law_only_the_right_report_brings_a_process_up(project: Project, index: int)
    requires
        project.checks.len() == project.states.len(),
        0 <= index < project.states.len(),
    ensures
        project.checks[index] ==> project.after(Happening::Settled(index)) == project
            && project.acts(Happening::Settled(index)).len() == 0,
        !project.checks[index] ==> project.after(Happening::Healthy(index)) == project
            && project.acts(Happening::Healthy(index)).len() == 0,
        project.stopping ==> project.after(Happening::Settled(index)) == project
            && project.after(Happening::Healthy(index)) == project,
        project.stopping && !project.checks[index] ==> project.acts(Happening::Settled(index))
            == seq![Act::Project(project.status())],
        project.stopping && project.checks[index] ==> project.acts(Happening::Healthy(index))
            == seq![Act::Project(project.status())],
{
    if project.stopping {
        assert(!project.checks[index] ==> project.acts(Happening::Settled(index)) =~= seq![
            Act::Project(project.status()),
        ]);
        assert(project.checks[index] ==> project.acts(Happening::Healthy(index)) =~= seq![
            Act::Project(project.status()),
        ]);
    }
}

/// An exit that will be tried again moves that process to restarting, wherever
/// it was, and moves nobody else.
pub proof fn law_an_exit_that_is_retried_moves_one_process(project: Project, index: int)
    requires
        0 <= index < project.states.len(),
        !project.stopping,
    ensures
        ({
            let after = project.after(Happening::Exited(index, false));
            &&& after.checks == project.checks
            &&& !after.stopping
            &&& after.states.len() == project.states.len()
            &&& after.states[index] is Restarting
            &&& forall|i: int|
                0 <= i < project.states.len() && i != index ==> #[trigger] after.states[i]
                    == project.states[i]
            &&& project.acts(Happening::Exited(index, false)) == seq![
                Act::Write(index, ProcessState::Restarting, None),
                Act::Project(after.status()),
            ]
        }),
{
    super::laws::law_a_restart_disturbs_nobody_else(project, index);
}

/// An exit during a stop moves that process to stopped, wherever it was and
/// whatever the supervisor means to do, and moves nobody else.
pub proof fn law_an_exit_during_a_stop_moves_one_process(
    project: Project,
    index: int,
    terminal: bool,
)
    requires
        0 <= index < project.states.len(),
        project.stopping,
    ensures
        ({
            let after = project.after(Happening::Exited(index, terminal));
            &&& after.checks == project.checks
            &&& after.stopping
            &&& after.states.len() == project.states.len()
            &&& after.states[index] is Stopped
            &&& forall|i: int|
                0 <= i < project.states.len() && i != index ==> #[trigger] after.states[i]
                    == project.states[i]
            &&& project.acts(Happening::Exited(index, terminal)) == seq![
                Act::Write(index, ProcessState::Stopped, None),
                Act::Project(after.status()),
            ]
        }),
{
    super::laws::law_an_exit_during_a_stop_is_a_stop(project, index, terminal);
}

/// Whether there is nothing left of a process to stop.
pub open spec fn over(state: ProcessState) -> bool {
    state is Stopped || state is Crashed || state is Failed
}

/// The list that stops some of the first `end` processes, last one first: each
/// is written as stopping and then told to stop.
pub open spec fn stops_in_reverse(acts: Seq<Act>, told: Seq<int>) -> bool {
    &&& acts.len() == 2 * told.len()
    &&& forall|k: int|
        0 <= k < told.len() ==> acts[2 * k] == Act::Write(
            #[trigger] told[k],
            ProcessState::Stopping,
            None,
        ) && acts[2 * k + 1] == Act::Stop(told[k])
    &&& forall|k: int, l: int|
        0 <= k < l < told.len() ==> #[trigger] told[k] > #[trigger] told[l]
}

/// Which processes the machine's list of stops tells, in their order.
proof fn the_stops_are_of(states: Seq<ProcessState>, except: Option<int>, end: int) -> (told: Seq<
    int,
>)
    requires
        0 <= end <= states.len(),
    ensures
        stops_in_reverse(super::stops_below(states, except, end), told),
        forall|k: int| 0 <= k < told.len() ==> 0 <= #[trigger] told[k] < end,
        forall|i: int|
            0 <= i < end ==> (#[trigger] told.contains(i) <==> Some(i) != except && !over(
                states[i],
            )),
    decreases end,
{
    if end <= 0 {
        Seq::empty()
    } else {
        let rest = the_stops_are_of(states, except, end - 1);
        let below = super::stops_below(states, except, end - 1);
        if super::still_up(states, except, end - 1) {
            let told = seq![end - 1] + rest;
            let acts = super::stops_below(states, except, end);
            assert forall|k: int| 0 <= k < told.len() implies acts[2 * k] == Act::Write(
                #[trigger] told[k],
                ProcessState::Stopping,
                None,
            ) && acts[2 * k + 1] == Act::Stop(told[k]) by {
                if k > 0 {
                    assert(told[k] == rest[k - 1]);
                    assert(acts[2 * k] == below[2 * (k - 1)]);
                    assert(acts[2 * k + 1] == below[2 * (k - 1) + 1]);
                }
            }
            assert forall|i: int| 0 <= i < end implies (#[trigger] told.contains(i) <==> Some(i)
                != except && !over(states[i])) by {
                if i < end - 1 {
                    if rest.contains(i) {
                        let k = choose|k: int| 0 <= k < rest.len() && rest[k] == i;
                        assert(told[k + 1] == i);
                    }
                    if told.contains(i) {
                        let k = choose|k: int| 0 <= k < told.len() && told[k] == i;
                        assert(rest[k - 1] == i);
                    }
                } else {
                    assert(told[0] == i);
                }
            }
            assert forall|k: int, l: int| 0 <= k < l < told.len() implies #[trigger] told[k]
                > #[trigger] told[l] by {
                assert(told[l] == rest[l - 1]);
                if k > 0 {
                    assert(told[k] == rest[k - 1]);
                }
            }
            told
        } else {
            assert forall|i: int| 0 <= i < end implies (#[trigger] rest.contains(i) <==> Some(i)
                != except && !over(states[i])) by {
                if i == end - 1 && rest.contains(i) {
                    let k = choose|k: int| 0 <= k < rest.len() && rest[k] == i;
                    assert(rest[k] < end - 1);
                }
            }
            rest
        }
    }
}

/// A process that is gone for good is written first, as crashed where it had
/// run or was being tried again and as failed otherwise. Then every other
/// process that is not over is written as stopping and told to stop, each once,
/// last one first. The project's status comes last, and nothing else is done.
pub proof fn law_a_lost_process_takes_the_others_down(
    project: Project,
    event: Happening,
    index: int,
) -> (told: Seq<int>)
    requires
        0 <= index < project.states.len(),
        (event == Happening::Exited(index, true) && !project.stopping) || (event is PrepareFailed
            && event->PrepareFailed_0 == index),
    ensures
        ({
            let after = project.after(event);
            let acts = project.acts(event);
            let end = if event is Exited && (project.states[index] is Running
                || project.states[index] is Restarting) {
                ProcessState::Crashed
            } else {
                ProcessState::Failed
            };
            &&& after.checks == project.checks
            &&& after.stopping == project.stopping
            &&& after.states.len() == project.states.len()
            &&& after.states[index] == end
            &&& forall|i: int|
                0 <= i < project.states.len() && i != index ==> #[trigger] after.states[i] == if over(
                    project.states[i],
                ) {
                    project.states[i]
                } else {
                    ProcessState::Stopping
                }
            &&& acts.len() >= 2
            &&& acts[0] == Act::Write(
                index,
                end,
                match event {
                    Happening::PrepareFailed(at, reason) => Some(reason),
                    _ => None,
                },
            )
            &&& acts.last() == Act::Project(after.status())
            &&& stops_in_reverse(acts.subrange(1, acts.len() - 1), told)
            &&& forall|i: int|
                0 <= i < project.states.len() ==> (#[trigger] told.contains(i) <==> i != index
                    && !over(project.states[i]))
            &&& forall|k: int|
                0 <= k < told.len() ==> 0 <= #[trigger] told[k] < project.states.len()
        }),
{
    let end = if event is Exited && (project.states[index] is Running || project.states[index]
        is Restarting) {
        ProcessState::Crashed
    } else {
        ProcessState::Failed
    };
    let left = project.states.update(index, end);
    let told = the_stops_are_of(left, Some(index), left.len() as int);
    let acts = project.acts(event);
    assert(acts.subrange(1, acts.len() - 1) =~= super::stops_below(
        left,
        Some(index),
        left.len() as int,
    ));
    told
}

/// A stop that is asked for tells every process that is not over, each once,
/// last one first, and then writes the status. From then on the project is
/// stopping.
pub proof fn law_a_stop_tells_everyone_who_is_up(project: Project) -> (told: Seq<int>)
    ensures
        ({
            let after = project.after(Happening::StopRequested);
            let acts = project.acts(Happening::StopRequested);
            &&& after.checks == project.checks
            &&& after.stopping
            &&& after.states.len() == project.states.len()
            &&& forall|i: int|
                0 <= i < project.states.len() ==> #[trigger] after.states[i] == if over(
                    project.states[i],
                ) {
                    project.states[i]
                } else {
                    ProcessState::Stopping
                }
            &&& acts.len() >= 1
            &&& acts.last() == Act::Project(after.status())
            &&& stops_in_reverse(acts.drop_last(), told)
            &&& forall|i: int|
                0 <= i < project.states.len() ==> (#[trigger] told.contains(i) <==> !over(
                    project.states[i],
                ))
            &&& forall|k: int|
                0 <= k < told.len() ==> 0 <= #[trigger] told[k] < project.states.len()
        }),
{
    let told = the_stops_are_of(project.states, None, project.states.len() as int);
    assert(project.acts(Happening::StopRequested).drop_last() =~= super::stops_below(
        project.states,
        None,
        project.states.len() as int,
    ));
    told
}

/// An event of a process that is not there changes nothing, and nothing but the
/// status is written, if that.
pub proof fn law_an_event_of_nobody_is_ignored(project: Project, event: Happening, index: int)
    requires
        index < 0 || index >= project.states.len(),
        project.checks.len() == project.states.len(),
        event == Happening::Settled(index) || event == Happening::Healthy(index) || event
            == Happening::Exited(index, true) || event == Happening::Exited(index, false) || (event
            is PrepareFailed && event->PrepareFailed_0 == index),
    ensures
        project.after(event) == project,
        project.acts(event).len() == 0 || project.acts(event) == seq![
            Act::Project(project.status()),
        ],
{
    super::laws::law_a_stale_event_is_ignored(project, event, index);
}

/// A start forgets where everything was: the first process starts, every other
/// one waits, and a stop that was asked for is over.
pub proof fn law_a_start_begins_anew(project: Project)
    requires
        project.checks.len() == project.states.len(),
    ensures
        project.started().checks == project.checks,
        !project.started().stopping,
        project.started().states.len() == project.states.len(),
        forall|i: int|
            0 <= i < project.states.len() ==> #[trigger] project.started().states[i] == if i == 0 {
                ProcessState::Starting
            } else {
                ProcessState::Pending
            },
        project.start_acts() == if project.states.len() == 0 {
            Seq::empty()
        } else {
            seq![
                Act::Write(0, ProcessState::Starting, None),
                Act::Spawn(0),
                Act::Project(ProjectStatus::STARTING),
            ]
        },
{
    if project.states.len() > 0 {
        super::laws::law_a_start_spawns_the_first_process(project);
    }
}

/// The status of a project is decided by its worst process: one that failed,
/// then one that crashed, then one that is being tried again, then one that
/// still has to come up. A project without any of these runs where all of its
/// processes do, is on its way where one is still stopping, and is stopped
/// otherwise. A project of no processes is stopped.
pub proof fn law_the_worst_process_decides(project: Project)
    ensures
        ({
            let states = project.states;
            let failed = exists|i: int| 0 <= i < states.len() && #[trigger] states[i] is Failed;
            let crashed = exists|i: int| 0 <= i < states.len() && #[trigger] states[i] is Crashed;
            let retried = exists|i: int|
                0 <= i < states.len() && #[trigger] states[i] is Restarting;
            let coming = exists|i: int|
                0 <= i < states.len() && (#[trigger] states[i] is Pending || states[i]
                    is Starting);
            let stopping = exists|i: int| 0 <= i < states.len() && #[trigger] states[i] is Stopping;
            let up = states.len() > 0 && forall|i: int|
                0 <= i < states.len() ==> #[trigger] states[i] is Running;
            let status = project.status();
            &&& failed ==> status == ProjectStatus::FAILED
            &&& !failed && crashed ==> status == ProjectStatus::CRASHED
            &&& !failed && !crashed && retried ==> status == ProjectStatus::RESTARTING
            &&& !failed && !crashed && !retried && coming ==> status == ProjectStatus::STARTING
            &&& up ==> status == ProjectStatus::RUNNING
            &&& !failed && !crashed && !retried && !coming && !up ==> status == if stopping {
                ProjectStatus::STARTING
            } else {
                ProjectStatus::STOPPED
            }
        }),
{
    let states = project.states;
    assert(super::some_in(states, ProcessState::Failed) <==> exists|i: int|
        0 <= i < states.len() && #[trigger] states[i] is Failed);
    assert(super::some_in(states, ProcessState::Crashed) <==> exists|i: int|
        0 <= i < states.len() && #[trigger] states[i] is Crashed);
    assert(super::some_in(states, ProcessState::Restarting) <==> exists|i: int|
        0 <= i < states.len() && #[trigger] states[i] is Restarting);
    assert(super::some_in(states, ProcessState::Stopping) <==> exists|i: int|
        0 <= i < states.len() && #[trigger] states[i] is Stopping);
    if exists|i: int|
        0 <= i < states.len() && (#[trigger] states[i] is Pending || states[i] is Starting) {
        let i = choose|i: int|
            0 <= i < states.len() && (#[trigger] states[i] is Pending || states[i] is Starting);
        assert(super::some_in(states, states[i]));
    }
    super::laws::law_running_means_everything_runs(project);
}

/// What is written of a process is where it then is, and every process that
/// moved is written of.
pub proof fn law_what_moved_is_written(project: Project, event: Happening, index: int)
    requires
        project.checks.len() == project.states.len(),
        0 <= index < project.states.len(),
        project.after(event).states[index] != project.states[index],
    ensures
        exists|k: int|
            0 <= k < project.acts(event).len() && (#[trigger] project.acts(event)[k] is Write)
                && project.acts(event)[k]->Write_0 == index && project.acts(event)[k]->Write_1
                == project.after(event).states[index],
{
    let acts = project.acts(event);
    match event {
        Happening::Settled(at) | Happening::Healthy(at) => {
            if 0 <= at < project.states.len() {
                law_only_the_right_report_brings_a_process_up(project, at);
                if !project.stopping && (event is Healthy) == project.checks[at] {
                    law_a_process_that_comes_up_runs(project, event, at);
                    assert(acts[0] is Write);
                    if index != at {
                        assert(acts[1] is Write);
                    }
                }
            } else {
                law_an_event_of_nobody_is_ignored(project, event, at);
            }
        },
        Happening::Exited(at, terminal) => {
            if 0 <= at < project.states.len() {
                if project.stopping {
                    law_an_exit_during_a_stop_moves_one_process(project, at, terminal);
                    assert(acts[0] is Write);
                } else if !terminal {
                    law_an_exit_that_is_retried_moves_one_process(project, at);
                    assert(acts[0] is Write);
                } else {
                    a_lost_process_is_written(project, event, at, index);
                }
            } else {
                law_an_event_of_nobody_is_ignored(project, event, at);
            }
        },
        Happening::StopRequested => {
            let told = law_a_stop_tells_everyone_who_is_up(project);
            assert(told.contains(index));
            let k = choose|k: int| 0 <= k < told.len() && told[k] == index;
            assert(acts.drop_last()[2 * k] == acts[2 * k]);
            assert(acts[2 * k] == Act::Write(told[k], ProcessState::Stopping, None));
        },
        Happening::PrepareFailed(at, reason) => {
            if 0 <= at < project.states.len() {
                a_lost_process_is_written(project, event, at, index);
            } else {
                law_an_event_of_nobody_is_ignored(project, event, at);
            }
        },
    }
}

proof fn a_lost_process_is_written(project: Project, event: Happening, at: int, index: int)
    requires
        0 <= at < project.states.len(),
        0 <= index < project.states.len(),
        (event == Happening::Exited(at, true) && !project.stopping) || (event is PrepareFailed
            && event->PrepareFailed_0 == at),
        project.after(event).states[index] != project.states[index],
    ensures
        exists|k: int|
            0 <= k < project.acts(event).len() && (#[trigger] project.acts(event)[k] is Write)
                && project.acts(event)[k]->Write_0 == index && project.acts(event)[k]->Write_1
                == project.after(event).states[index],
{
    let acts = project.acts(event);
    let told = law_a_lost_process_takes_the_others_down(project, event, at);
    if index == at {
        assert(acts[0] is Write);
    } else {
        assert(told.contains(index));
        let k = choose|k: int| 0 <= k < told.len() && told[k] == index;
        assert(acts.subrange(1, acts.len() - 1)[2 * k] == acts[2 * k + 1]);
        assert(acts[2 * k + 1] == Act::Write(told[k], ProcessState::Stopping, None));
    }
}

/// A state is written in the column by its own name; one that waits for its
/// turn has not been started, and is written as stopped.
pub proof fn law_a_state_is_written_by_its_name(state: ProcessState)
    ensures
        state is Pending || state is Stopped <==> state.word() == "STOPPED"@,
        state is Starting <==> state.word() == "STARTING"@,
        state is Running <==> state.word() == "RUNNING"@,
        state is Restarting <==> state.word() == "RESTARTING"@,
        state is Stopping <==> state.word() == "STOPPING"@,
        state is Crashed <==> state.word() == "CRASHED"@,
        state is Failed <==> state.word() == "FAILED"@,
{
    super::laws::law_words_tell_states_apart(state, ProcessState::Stopped);
    super::laws::law_words_tell_states_apart(state, ProcessState::Starting);
    super::laws::law_words_tell_states_apart(state, ProcessState::Running);
    super::laws::law_words_tell_states_apart(state, ProcessState::Restarting);
    super::laws::law_words_tell_states_apart(state, ProcessState::Stopping);
    super::laws::law_words_tell_states_apart(state, ProcessState::Crashed);
    super::laws::law_words_tell_states_apart(state, ProcessState::Failed);
}

/// A status is written in the column by its own name.
pub proof fn law_a_status_is_written_by_its_name(status: ProjectStatus)
    ensures
        status is RUNNING <==> status.word() == "RUNNING"@,
        status is STARTING <==> status.word() == "STARTING"@,
        status is RESTARTING <==> status.word() == "RESTARTING"@,
        status is CRASHED <==> status.word() == "CRASHED"@,
        status is FAILED <==> status.word() == "FAILED"@,
        status is STOPPED <==> status.word() == "STOPPED"@,
{
    super::laws::law_words_tell_statuses_apart(status, ProjectStatus::RUNNING);
    super::laws::law_words_tell_statuses_apart(status, ProjectStatus::STARTING);
    super::laws::law_words_tell_statuses_apart(status, ProjectStatus::RESTARTING);
    super::laws::law_words_tell_statuses_apart(status, ProjectStatus::CRASHED);
    super::laws::law_words_tell_statuses_apart(status, ProjectStatus::FAILED);
    super::laws::law_words_tell_statuses_apart(status, ProjectStatus::STOPPED);
}

/// An action is read as it is written: which process, which state and why.
pub proof fn law_an_action_is_read_whole(action: super::Action)
    ensures
        match action {
            super::Action::Spawn { index } => action@ == Act::Spawn(index as int),
            super::Action::Stop { index } => action@ == Act::Stop(index as int),
            super::Action::WriteProcessStatus { index, state, reason } => {
                &&& action@ is Write
                &&& action@->Write_0 == index
                &&& action@->Write_1 == state
                &&& action@->Write_2 is Some <==> reason is Some
                &&& reason is Some ==> action@->Write_2->0 == reason->0@
            },
            super::Action::WriteProjectStatus { status } => action@ == Act::Project(status),
        },
{
}

/// Actions are read one by one, in their order.
pub proof fn law_actions_are_read_in_order(actions: Seq<super::Action>)
    ensures
        super::acts(actions).len() == actions.len(),
        forall|i: int|
            0 <= i < actions.len() ==> #[trigger] super::acts(actions)[i] == actions[i]@,
{
}

/// An event is read for which process it concerns, whether the exit is final
/// and why a preparation failed.
pub proof fn law_an_event_is_read_for_what_it_decides(event: super::Event)
    ensures
        match event {
            super::Event::Settled { index } => event@ == Happening::Settled(index as int),
            super::Event::Healthy { index } => event@ == Happening::Healthy(index as int),
            super::Event::Exited { index, code, terminal } => event@ == Happening::Exited(
                index as int,
                terminal,
            ),
            super::Event::StopRequested => event@ == Happening::StopRequested,
            super::Event::PrepareFailed { index, reason } => event@ == Happening::PrepareFailed(
                index as int,
                reason@,
            ),
        },
{
}

} // verus!
