//! What a project's processes are reporting.

pub mod laws;

use super::registry::RunningProcess;
use super::settings::health_deadline_s;
use crate::orchestration::ProjectStatus as MachineStatus;
use crate::records::{HealthState, ProcessRecord, ProjectStatus};
use crate::text::copied;
use vstd::prelude::*;

verus! {

/// Where a supervised process is.
#[derive(Debug, Clone, Copy, PartialEq, Eq, Structural)]
pub enum HostStatus {
    Running,
    Stopped,
    Crashed,
    Failed,
}

/// What a supervised process's health check says.
#[derive(Debug, PartialEq, Eq)]
pub enum Health {
    /// Nothing was asked: no check is configured, or the first has not run.
    Unasked,
    Passing,
    Failing(String),
}

/// What a supervisor reports of its process.
#[derive(Debug, PartialEq, Eq)]
pub struct HostObserved {
    pub status: HostStatus,
    pub health: Health,
    pub exit_code: Option<i64>,
    pub failure_reason: Option<String>,
}

/// What is true about a project right now, in this application's vocabulary.
///
/// A process has no health string and no image; it has a status, an exit code
/// and, when it failed, a reason worth showing someone.
#[derive(Debug, PartialEq, Eq)]
pub struct Observed {
    pub status: ProjectStatus,
    /// `None` means "nothing to say", which leaves the column as it was.
    pub health: Option<HealthState>,
    pub exit_code: Option<i64>,
    pub failure_reason: Option<String>,
}

/// What was observed, as a mathematical value.
pub struct Seen {
    pub status: ProjectStatus,
    pub health: Option<HealthState>,
    pub exit_code: Option<i64>,
    pub failure_reason: Option<Seq<char>>,
}

impl View for Observed {
    type V = Seen;

    open spec fn view(&self) -> Seen {
        Seen {
            status: self.status,
            health: self.health,
            exit_code: self.exit_code,
            failure_reason: crate::text::optional(self.failure_reason),
        }
    }
}

/// Whether some process reports the status.
pub open spec fn some_reports(seen: Seq<HostObserved>, status: HostStatus) -> bool {
    exists|i: int| 0 <= i < seen.len() && (#[trigger] seen[i]).status == status
}

/// Whether every process reports the status.
pub open spec fn all_report(seen: Seq<HostObserved>, status: HostStatus) -> bool {
    forall|i: int| 0 <= i < seen.len() ==> (#[trigger] seen[i]).status == status
}

/// The status of a set of running processes, by the same rule the state
/// machine uses.
pub open spec fn together(seen: Seq<HostObserved>) -> MachineStatus {
    if seen.len() == 0 {
        MachineStatus::STOPPED
    } else if some_reports(seen, HostStatus::Failed) {
        MachineStatus::FAILED
    } else if some_reports(seen, HostStatus::Crashed) {
        MachineStatus::CRASHED
    } else if all_report(seen, HostStatus::Running) {
        MachineStatus::RUNNING
    } else {
        MachineStatus::STOPPED
    }
}

/// The first process at or after `from` that is not running; the number of
/// processes where all of them are.
pub open spec fn first_unhappy(seen: Seq<HostObserved>, from: int) -> int
    decreases seen.len() - from,
{
    if from >= seen.len() || seen[from].status != HostStatus::Running {
        from
    } else {
        first_unhappy(seen, from + 1)
    }
}

/// The project's health: the worst of its processes'.
pub open spec fn worst_health(seen: Seq<HostObserved>) -> HealthState {
    if exists|i: int| 0 <= i < seen.len() && (#[trigger] seen[i]).health is Failing {
        HealthState::Unhealthy
    } else if exists|i: int| 0 <= i < seen.len() && (#[trigger] seen[i]).health is Passing {
        HealthState::Healthy
    } else {
        HealthState::Unchecked
    }
}

/// The machine's word for a project in the vocabulary of the row.
pub open spec fn recorded(status: MachineStatus) -> ProjectStatus {
    match status {
        MachineStatus::RUNNING => ProjectStatus::Running,
        MachineStatus::CRASHED => ProjectStatus::Crashed,
        MachineStatus::FAILED => ProjectStatus::Failed,
        MachineStatus::STARTING => ProjectStatus::Starting,
        MachineStatus::RESTARTING => ProjectStatus::Starting,
        MachineStatus::STOPPED => ProjectStatus::Stopped,
    }
}

/// The project's observed state, with the first unhappy process's words. Which
/// process failed is the first thing the user needs, so its name comes first.
pub open spec fn overall(
    status: MachineStatus,
    running: Seq<RunningProcess>,
    seen: Seq<HostObserved>,
) -> Seen {
    let unhappy = first_unhappy(seen, 0);
    Seen {
        status: recorded(status),
        health: Some(worst_health(seen)),
        exit_code: if unhappy < seen.len() {
            seen[unhappy].exit_code
        } else {
            None
        },
        failure_reason: if unhappy < seen.len() {
            match seen[unhappy].failure_reason {
                Some(reason) => Some(running[unhappy].name@ + ": "@ + reason@),
                None => None,
            }
        } else {
            None
        },
    }
}

fn any_reports(seen: &Vec<HostObserved>, status: HostStatus) -> (found: bool)
    ensures
        found == some_reports(seen@, status),
{
    let mut index: usize = 0;
    while index < seen.len()
        invariant
            index <= seen@.len(),
            forall|i: int| 0 <= i < index ==> (#[trigger] seen@[i]).status != status,
        decreases seen@.len() - index,
    {
        if seen[index].status == status {
            assert(seen@[index as int].status == status);
            return true;
        }
        index += 1;
    }
    false
}

fn find_unhappy(seen: &Vec<HostObserved>) -> (at: usize)
    ensures
        at == first_unhappy(seen@, 0),
        at <= seen@.len(),
        at == seen@.len() <==> all_report(seen@, HostStatus::Running),
{
    let mut at: usize = 0;
    while at < seen.len() && seen[at].status == HostStatus::Running
        invariant
            at <= seen@.len(),
            first_unhappy(seen@, at as int) == first_unhappy(seen@, 0),
            forall|i: int| 0 <= i < at ==> (#[trigger] seen@[i]).status == HostStatus::Running,
        decreases seen@.len() - at,
    {
        at += 1;
    }
    at
}

/// The status of a set of running processes, by the same rule the state
/// machine uses.
pub fn aggregate(seen: &Vec<HostObserved>) -> (status: MachineStatus)
    ensures
        status == together(seen@),
{
    if seen.len() == 0 {
        return MachineStatus::STOPPED;
    }
    if any_reports(seen, HostStatus::Failed) {
        return MachineStatus::FAILED;
    }
    if any_reports(seen, HostStatus::Crashed) {
        return MachineStatus::CRASHED;
    }
    if find_unhappy(seen) == seen.len() {
        return MachineStatus::RUNNING;
    }
    MachineStatus::STOPPED
}

/// The project's health: the worst of its processes'.
pub fn health_of(seen: &Vec<HostObserved>) -> (health: HealthState)
    ensures
        health == worst_health(seen@),
{
    let mut any_check = false;
    let mut index: usize = 0;
    while index < seen.len()
        invariant
            index <= seen@.len(),
            forall|i: int| 0 <= i < index ==> !((#[trigger] seen@[i]).health is Failing),
            any_check == exists|i: int| 0 <= i < index && (#[trigger] seen@[i]).health is Passing,
        decreases seen@.len() - index,
    {
        match &seen[index].health {
            Health::Unasked => {},
            Health::Passing => {
                assert(seen@[index as int].health is Passing);
                any_check = true;
            },
            Health::Failing(_) => {
                assert(seen@[index as int].health is Failing);
                return HealthState::Unhealthy;
            },
        }
        index += 1;
    }
    if any_check {
        HealthState::Healthy
    } else {
        HealthState::Unchecked
    }
}

/// The project's observed state, with the first unhappy process's words. What
/// was seen of the processes stands in the same order as they do.
pub fn observed_for(
    status: MachineStatus,
    running: &Vec<RunningProcess>,
    seen: &Vec<HostObserved>,
) -> (observed: Observed)
    requires
        running@.len() == seen@.len(),
    ensures
        observed@ == overall(status, running@, seen@),
{
    let unhappy = find_unhappy(seen);
    let (exit_code, failure_reason): (Option<i64>, Option<String>) = if unhappy < seen.len() {
        let reason = match &seen[unhappy].failure_reason {
            Some(reason) => Some(running[unhappy].name.clone().concat(": ").concat(reason.as_str())),
            None => None,
        };
        (seen[unhappy].exit_code, reason)
    } else {
        (None, None)
    };
    Observed {
        status: match status {
            MachineStatus::RUNNING => ProjectStatus::Running,
            MachineStatus::CRASHED => ProjectStatus::Crashed,
            MachineStatus::FAILED => ProjectStatus::Failed,
            MachineStatus::STARTING | MachineStatus::RESTARTING => ProjectStatus::Starting,
            MachineStatus::STOPPED => ProjectStatus::Stopped,
        },
        health: Some(health_of(seen)),
        exit_code,
        failure_reason,
    }
}

/// What the project's processes are reporting, or `None` if it is not running
/// here.
pub fn observe(running: &Vec<RunningProcess>, seen: &Vec<HostObserved>) -> (observed: Option<
    Observed,
>)
    requires
        running@.len() == seen@.len(),
    ensures
        observed is None <==> running@.len() == 0,
        observed matches Some(observed) ==> observed@ == overall(together(seen@), running@, seen@),
{
    if running.len() == 0 {
        return None;
    }
    Some(observed_for(aggregate(seen), running, seen))
}

/// One process's report in this application's vocabulary.
pub open spec fn translated(observed: HostObserved) -> Seen {
    Seen {
        status: match observed.status {
            HostStatus::Running => ProjectStatus::Running,
            HostStatus::Stopped => ProjectStatus::Stopped,
            HostStatus::Crashed => ProjectStatus::Crashed,
            HostStatus::Failed => ProjectStatus::Failed,
        },
        health: Some(
            match observed.health {
                Health::Unasked => HealthState::Unchecked,
                Health::Passing => HealthState::Healthy,
                Health::Failing(_) => HealthState::Unhealthy,
            },
        ),
        exit_code: observed.exit_code,
        failure_reason: crate::text::optional(observed.failure_reason),
    }
}

/// What a supervisor is reporting, in this application's vocabulary.
///
/// The only way anything outside this module reads a report.
pub fn observed_from(observed: &HostObserved) -> (seen: Observed)
    ensures
        seen@ == translated(*observed),
{
    Observed {
        status: match observed.status {
            HostStatus::Running => ProjectStatus::Running,
            HostStatus::Stopped => ProjectStatus::Stopped,
            HostStatus::Crashed => ProjectStatus::Crashed,
            HostStatus::Failed => ProjectStatus::Failed,
        },
        health: Some(
            match &observed.health {
                // No check configured. Not "unknown": nothing was asked, and
                // the column has a word for that.
                Health::Unasked => HealthState::Unchecked,
                Health::Passing => HealthState::Healthy,
                Health::Failing(_) => HealthState::Unhealthy,
            },
        ),
        exit_code: observed.exit_code,
        failure_reason: copied(&observed.failure_reason),
    }
}

/// What waiting for a health check comes to.
#[derive(Debug, Clone, Copy, PartialEq, Eq, Structural)]
pub enum Verdict {
    Passed,
    GaveUp,
    Waiting,
}

/// Whether a process has reported healthy, cannot any more, or still may. A
/// check that has not run yet is not one that passed.
pub open spec fn verdict(
    health: Health,
    status: HostStatus,
    waited_ms: int,
    patience_s: int,
) -> Verdict {
    if health is Passing {
        Verdict::Passed
    } else if status != HostStatus::Running || waited_ms >= patience_s * 1000 {
        Verdict::GaveUp
    } else {
        Verdict::Waiting
    }
}

/// Wait for a process to report healthy, or give up: what one look at it
/// decides.
pub fn await_health(
    health: &Health,
    status: HostStatus,
    waited_ms: u64,
    process: &ProcessRecord,
) -> (decided: Verdict)
    ensures
        decided == verdict(
            *health,
            status,
            waited_ms as int,
            super::settings::patience(*process),
        ),
{
    match health {
        Health::Passing => return Verdict::Passed,
        Health::Unasked | Health::Failing(_) => {},
    }
    if status != HostStatus::Running {
        return Verdict::GaveUp;
    }
    if waited_ms >= health_deadline_s(process) * 1000 {
        return Verdict::GaveUp;
    }
    Verdict::Waiting
}

/// A project reads as running only where every process does.
pub proof fn law_a_project_runs_only_as_a_whole(seen: Seq<HostObserved>)
    ensures
        together(seen) == MachineStatus::RUNNING <==> seen.len() > 0 && all_report(
            seen,
            HostStatus::Running,
        ),
{
    if seen.len() > 0 && all_report(seen, HostStatus::Running) {
        assert(seen[0].status == HostStatus::Running);
    }
}

/// Where the machine has a process that a supervisor reports of.
pub open spec fn machine_state(status: HostStatus) -> crate::orchestration::ProcessState {
    match status {
        HostStatus::Running => crate::orchestration::ProcessState::Running,
        HostStatus::Stopped => crate::orchestration::ProcessState::Stopped,
        HostStatus::Crashed => crate::orchestration::ProcessState::Crashed,
        HostStatus::Failed => crate::orchestration::ProcessState::Failed,
    }
}

/// The status of a set of reports is the one the machine has for processes in
/// those states: there is one rule for what a project's status is.
pub proof fn law_reports_are_read_by_the_machines_rule(seen: Seq<HostObserved>)
    ensures
        together(seen) == crate::orchestration::status_of(
            seen.map_values(|report: HostObserved| machine_state(report.status)),
        ),
{
    let states = seen.map_values(|report: HostObserved| machine_state(report.status));
    assert forall|i: int| 0 <= i < seen.len() implies #[trigger] states[i] == machine_state(
        seen[i].status,
    ) by {}
    if some_reports(seen, HostStatus::Failed) {
        let i = choose|i: int| 0 <= i < seen.len() && (#[trigger] seen[i]).status == HostStatus::Failed;
        assert(states[i] == crate::orchestration::ProcessState::Failed);
    }
    if some_reports(seen, HostStatus::Crashed) {
        let i = choose|i: int| 0 <= i < seen.len() && (#[trigger] seen[i]).status == HostStatus::Crashed;
        assert(states[i] == crate::orchestration::ProcessState::Crashed);
    }
    if !all_report(seen, HostStatus::Running) {
        let i = choose|i: int| 0 <= i < seen.len() && (#[trigger] seen[i]).status != HostStatus::Running;
        assert(states[i] != crate::orchestration::ProcessState::Running);
    }
}

/// A check that has not passed never lets the next process start, whatever the
/// process's own state, and the wait for it ends.
pub proof fn law_only_a_passing_check_passes(
    health: Health,
    status: HostStatus,
    waited_ms: int,
    patience_s: int,
)
    ensures
        verdict(health, status, waited_ms, patience_s) == Verdict::Passed <==> health is Passing,
        waited_ms >= patience_s * 1000 ==> verdict(health, status, waited_ms, patience_s)
            != Verdict::Waiting,
{
}

} // verus!
