//! What a project's processes report, taken together.

use super::{Health, HostObserved, HostStatus, Seen};
use crate::orchestration::ProjectStatus as MachineStatus;
use crate::orchestrator::registry::RunningProcess;
use crate::records::{HealthState, ProjectStatus};
use vstd::prelude::*;

verus! {

/// A project is as badly off as the worst of its processes: failed, then
/// crashed; it runs only where all of them do, and is stopped otherwise.
pub proof fn law_the_worst_report_decides(seen: Seq<HostObserved>)
    ensures
        ({
            let failed = exists|i: int|
                0 <= i < seen.len() && (#[trigger] seen[i]).status == HostStatus::Failed;
            let crashed = exists|i: int|
                0 <= i < seen.len() && (#[trigger] seen[i]).status == HostStatus::Crashed;
            let up = forall|i: int|
                0 <= i < seen.len() ==> (#[trigger] seen[i]).status == HostStatus::Running;
            super::together(seen) == if seen.len() == 0 {
                MachineStatus::STOPPED
            } else if failed {
                MachineStatus::FAILED
            } else if crashed {
                MachineStatus::CRASHED
            } else if up {
                MachineStatus::RUNNING
            } else {
                MachineStatus::STOPPED
            }
        }),
{
}

/// A project is as healthy as the worst of its checks; without any it is
/// unchecked.
pub proof fn law_the_worst_check_decides(seen: Seq<HostObserved>)
    ensures
        super::worst_health(seen) == HealthState::Unhealthy <==> exists|i: int|
            0 <= i < seen.len() && (#[trigger] seen[i]).health is Failing,
        super::worst_health(seen) == HealthState::Healthy <==> (exists|i: int|
            0 <= i < seen.len() && (#[trigger] seen[i]).health is Passing) && (forall|i: int|
            0 <= i < seen.len() ==> !((#[trigger] seen[i]).health is Failing)),
        super::worst_health(seen) == HealthState::Unchecked <==> forall|i: int|
            0 <= i < seen.len() ==> (#[trigger] seen[i]).health is Unasked,
{
    assert forall|i: int| 0 <= i < seen.len() implies (#[trigger] seen[i]).health is Unasked
        || seen[i].health is Passing || seen[i].health is Failing by {}
    if super::worst_health(seen) == HealthState::Unchecked {
        assert forall|i: int| 0 <= i < seen.len() implies (#[trigger] seen[i]).health
            is Unasked by {
            assert(!(seen[i].health is Failing));
            assert(!(seen[i].health is Passing));
        }
    }
}

/// What is written of a project in the vocabulary of its row: a project that is
/// being tried again is on its way up.
pub proof fn law_a_status_is_recorded_in_the_rows_words(status: MachineStatus)
    ensures
        status == MachineStatus::RUNNING <==> super::recorded(status) == ProjectStatus::Running,
        status == MachineStatus::CRASHED <==> super::recorded(status) == ProjectStatus::Crashed,
        status == MachineStatus::FAILED <==> super::recorded(status) == ProjectStatus::Failed,
        status == MachineStatus::STOPPED <==> super::recorded(status) == ProjectStatus::Stopped,
        status == MachineStatus::STARTING || status == MachineStatus::RESTARTING
            <==> super::recorded(status) == ProjectStatus::Starting,
{
}

proof fn the_first_that_is_down(seen: Seq<HostObserved>, from: int)
    requires
        0 <= from <= seen.len(),
    ensures
        from <= super::first_unhappy(seen, from) <= seen.len(),
        forall|j: int|
            from <= j < super::first_unhappy(seen, from) ==> (#[trigger] seen[j]).status
                == HostStatus::Running,
        super::first_unhappy(seen, from) < seen.len() ==> seen[super::first_unhappy(
            seen,
            from,
        )].status != HostStatus::Running,
    decreases seen.len() - from,
{
    if from < seen.len() && seen[from].status == HostStatus::Running {
        the_first_that_is_down(seen, from + 1);
    }
}

/// The first process that is down speaks for the project: its exit code is the
/// project's, and its words are, after its name. Where all of them run there is
/// neither.
pub proof fn law_the_first_one_down_speaks_for_the_project(
    status: MachineStatus,
    running: Seq<RunningProcess>,
    seen: Seq<HostObserved>,
    at: int,
)
    requires
        0 <= at <= seen.len(),
        forall|j: int| 0 <= j < at ==> (#[trigger] seen[j]).status == HostStatus::Running,
        at < seen.len() ==> seen[at].status != HostStatus::Running,
    ensures
        ({
            let told: Seen = super::overall(status, running, seen);
            &&& told.status == super::recorded(status)
            &&& told.health == Some(super::worst_health(seen))
            &&& at == seen.len() ==> told.exit_code is None && told.failure_reason is None
            &&& at < seen.len() ==> told.exit_code == seen[at].exit_code
            &&& at < seen.len() ==> (told.failure_reason is Some <==> seen[at].failure_reason
                is Some)
            &&& at < seen.len() && seen[at].failure_reason is Some ==> told.failure_reason->0
                == running[at].name@ + ": "@ + seen[at].failure_reason->0@
        }),
{
    the_first_that_is_down(seen, 0);
    let first = super::first_unhappy(seen, 0);
    if first < at {
        assert(seen[first].status == HostStatus::Running);
    }
    if at < first {
        assert(seen[at].status == HostStatus::Running);
    }
}

/// One process's report is passed on as it is, in the words of the row; where
/// nothing was asked of its health, it is unchecked.
pub proof fn law_a_report_is_passed_on_as_it_is(observed: HostObserved)
    ensures
        ({
            let told: Seen = super::translated(observed);
            &&& observed.status == HostStatus::Running <==> told.status == ProjectStatus::Running
            &&& observed.status == HostStatus::Stopped <==> told.status == ProjectStatus::Stopped
            &&& observed.status == HostStatus::Crashed <==> told.status == ProjectStatus::Crashed
            &&& observed.status == HostStatus::Failed <==> told.status == ProjectStatus::Failed
            &&& observed.health is Unasked <==> told.health == Some(HealthState::Unchecked)
            &&& observed.health is Passing <==> told.health == Some(HealthState::Healthy)
            &&& observed.health is Failing <==> told.health == Some(HealthState::Unhealthy)
            &&& told.exit_code == observed.exit_code
            &&& told.failure_reason is Some <==> observed.failure_reason is Some
            &&& observed.failure_reason is Some ==> told.failure_reason->0
                == observed.failure_reason->0@
        }),
{
}

/// A check that passes has passed, whatever else is true. One that does not is
/// given up on exactly where its process is gone or its time is over.
pub proof fn law_a_check_is_given_up_on_in_time(
    health: Health,
    status: HostStatus,
    waited_ms: int,
    patience_s: int,
)
    ensures
        health is Passing ==> super::verdict(health, status, waited_ms, patience_s)
            == super::Verdict::Passed,
        !(health is Passing) && status == HostStatus::Running && waited_ms < patience_s * 1000
            ==> super::verdict(health, status, waited_ms, patience_s) == super::Verdict::Waiting,
        !(health is Passing) && (status != HostStatus::Running || waited_ms >= patience_s * 1000)
            ==> super::verdict(health, status, waited_ms, patience_s) == super::Verdict::GaveUp,
{
}

/// What was observed is read as it is written.
pub proof fn law_an_observation_is_read_whole(observed: super::Observed)
    ensures
        observed@.status == observed.status,
        observed@.health == observed.health,
        observed@.exit_code == observed.exit_code,
        observed@.failure_reason is Some <==> observed.failure_reason is Some,
        observed.failure_reason is Some ==> observed@.failure_reason->0
            == observed.failure_reason->0@,
{
}

} // verus!
