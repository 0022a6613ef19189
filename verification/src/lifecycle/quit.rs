//! Stopping every project this process is running, on the way out.
//!
//! A project is a child of this process, so quitting stops it. **The desired
//! state is left alone.** A project stopped because the application is quitting
//! still *wants* to be running, and the honest row for that is a desired state
//! of `RUNNING` beside a status of `STOPPED`. That pair is also exactly what a
//! "start these again" prompt on the next launch needs to find.

use crate::orchestrator::observed::HostStatus;
use crate::orchestrator::registry::{RunningProcess, any_up};
use crate::orchestrator::stop_order;
use vstd::prelude::*;

verus! {

/// One thing to be done on the way out.
#[derive(Debug)]
pub enum Parting {
    /// Where each of the handles is.
    Look { handles: Vec<u64> },
    /// Ask a process to stop, and wait out the grace period.
    Stop { handle: u64 },
    /// Record that a project has stopped, cleanly. The process is gone whether
    /// or not the stop reported cleanly.
    RecordStopped { project_id: String, exit_code: Option<i64> },
    /// Nothing is left to do.
    Nothing,
}

/// What came of it.
#[derive(Debug)]
pub enum Farewell {
    Seen(Vec<(u64, HostStatus)>),
    /// It was done, or could not be. One process that will not die must not
    /// prevent the others from being stopped, nor the database from being
    /// closed cleanly.
    Done,
}

/// A parting as a mathematical value.
pub enum Leaving {
    Look(Seq<u64>),
    Stop(u64),
    RecordStopped(Seq<char>, Option<i64>),
    Nothing,
}

impl View for Parting {
    type V = Leaving;

    open spec fn view(&self) -> Leaving {
        match self {
            Parting::Look { handles } => Leaving::Look(handles@),
            Parting::Stop { handle } => Leaving::Stop(*handle),
            Parting::RecordStopped { project_id, exit_code } => Leaving::RecordStopped(
                project_id@,
                *exit_code,
            ),
            Parting::Nothing => Leaving::Nothing,
        }
    }
}

#[derive(Debug)]
enum Stage {
    Look,
    /// The first so many of the handles are stopped.
    Stop(Vec<u64>, usize),
    Record,
}

/// Where it is with one project, as a mathematical value.
pub enum Phase {
    Look,
    Stop(Seq<u64>, int),
    Record,
}

impl View for Stage {
    type V = Phase;

    closed spec fn view(&self) -> Phase {
        match self {
            Stage::Look => Phase::Look,
            Stage::Stop(handles, done) => Phase::Stop(handles@, *done as int),
            Stage::Record => Phase::Record,
        }
    }
}

/// Quitting, as a mathematical value: the projects there are, how many of them
/// are dealt with, where it is with the next one, and which were stopped.
pub struct Quitting {
    pub projects: Seq<(Seq<char>, Seq<RunningProcess>)>,
    pub at: int,
    pub phase: Phase,
    pub stopped: Seq<Seq<char>>,
}

impl Quitting {
    pub open spec fn wf(self) -> bool {
        &&& 0 <= self.at <= self.projects.len()
        &&& self.at == self.projects.len() ==> self.phase is Look
        &&& match self.phase {
            Phase::Stop(handles, done) => 0 <= done < handles.len(),
            _ => true,
        }
    }

    /// Whether every project is dealt with.
    pub open spec fn over(self) -> bool {
        self.at >= self.projects.len()
    }

    pub open spec fn request(self) -> Leaving {
        if self.over() {
            Leaving::Nothing
        } else {
            let (project_id, processes) = self.projects[self.at];
            match self.phase {
                Phase::Look => Leaving::Look(
                    processes.map_values(|process: RunningProcess| process.handle),
                ),
                Phase::Stop(handles, done) => Leaving::Stop(handles[done]),
                Phase::Record => Leaving::RecordStopped(project_id, Some(0)),
            }
        }
    }

    pub open spec fn after(self, farewell: Farewell) -> Quitting {
        if self.over() {
            self
        } else {
            let (project_id, processes) = self.projects[self.at];
            match (self.phase, farewell) {
                (Phase::Look, Farewell::Seen(seen)) => if crate::orchestrator::registry::some_up(
                    processes,
                    seen@,
                ) {
                    // Reverse order: a process was started against the ones
                    // before it.
                    Quitting {
                        phase: Phase::Stop(crate::orchestrator::reversed_handles(processes), 0),
                        ..self
                    }
                } else {
                    Quitting { at: self.at + 1, ..self }
                },
                (Phase::Stop(handles, done), Farewell::Done) => Quitting {
                    phase: if done + 1 < handles.len() {
                        Phase::Stop(handles, done + 1)
                    } else {
                        Phase::Record
                    },
                    ..self
                },
                (Phase::Record, Farewell::Done) => Quitting {
                    at: self.at + 1,
                    phase: Phase::Look,
                    stopped: self.stopped.push(project_id),
                    ..self
                },
                _ => self,
            }
        }
    }
}

/// Stopping every project on the way out.
#[derive(Debug)]
pub struct QuitRun {
    projects: Vec<(String, Vec<RunningProcess>)>,
    at: usize,
    stage: Stage,
    stopped: Vec<String>,
}

impl View for QuitRun {
    type V = Quitting;

    closed spec fn view(&self) -> Quitting {
        Quitting {
            projects: crate::orchestrator::registry::listed(self.projects@),
            at: self.at as int,
            phase: self.stage@,
            stopped: crate::text::texts(self.stopped@),
        }
    }
}

/// Stop every project this process is running, and record that it stopped.
/// `projects` is every project in the registry.
pub fn stop_host_projects(projects: Vec<(String, Vec<RunningProcess>)>) -> (run: QuitRun)
    ensures
        run@ == (Quitting {
            projects: crate::orchestrator::registry::listed(projects@),
            at: 0,
            phase: Phase::Look,
            stopped: Seq::empty(),
        }),
{
    let run = QuitRun { projects, at: 0, stage: Stage::Look, stopped: Vec::new() };
    assert(crate::text::texts(run.stopped@) =~= Seq::empty());
    run
}

impl QuitRun {
    #[verifier::type_invariant]
    spec fn well_formed(self) -> bool {
        self@.wf()
    }

    /// What is to be done next.
    pub fn request(&self) -> (parting: Parting)
        ensures
            parting@ == self@.request(),
    {
        proof {
            use_type_invariant(self);
        }
        if self.at >= self.projects.len() {
            return Parting::Nothing;
        }
        let project = &self.projects[self.at];
        assert(self@.projects[self.at as int] == (project.0@, project.1@));
        match &self.stage {
            Stage::Look => {
                let mut handles: Vec<u64> = Vec::new();
                let ghost all = project.1@.map_values(|process: RunningProcess| process.handle);
                let mut index: usize = 0;
                while index < project.1.len()
                    invariant
                        index <= project.1@.len(),
                        all == project.1@.map_values(|process: RunningProcess| process.handle),
                        handles@ == all.take(index as int),
                    decreases project.1@.len() - index,
                {
                    handles.push(project.1[index].handle);
                    assert(handles@ =~= all.take(index + 1));
                    index += 1;
                }
                assert(all.take(index as int) =~= all);
                Parting::Look { handles }
            },
            Stage::Stop(handles, done) => Parting::Stop { handle: handles[*done] },
            Stage::Record => Parting::RecordStopped {
                project_id: project.0.clone(),
                exit_code: Some(0),
            },
        }
    }

    /// Take what came of it, and decide what follows.
    pub fn step(self, farewell: Farewell) -> (next: QuitRun)
        ensures
            next@ == self@.after(farewell),
    {
        proof {
            use_type_invariant(&self);
        }
        let QuitRun { projects, at, stage, stopped } = self;
        if at >= projects.len() {
            return QuitRun { projects, at, stage, stopped };
        }
        assert(crate::orchestrator::registry::listed(projects@)[at as int] == (
            projects@[at as int].0@,
            projects@[at as int].1@,
        ));
        match stage {
            Stage::Look => match farewell {
                Farewell::Seen(seen) => {
                    let processes = &projects[at].1;
                    if any_up(processes, &seen) {
                        let handles = stop_order(processes);
                        assert(handles@.len() > 0);
                        QuitRun { projects, at, stage: Stage::Stop(handles, 0), stopped }
                    } else {
                        QuitRun { projects, at: at + 1, stage: Stage::Look, stopped }
                    }
                },
                _ => QuitRun { projects, at, stage: Stage::Look, stopped },
            },
            Stage::Stop(handles, done) => match farewell {
                Farewell::Done => {
                    let count: usize = handles.len();
                    let stage = if done + 1 < count {
                        Stage::Stop(handles, done + 1)
                    } else {
                        Stage::Record
                    };
                    QuitRun { projects, at, stage, stopped }
                },
                _ => QuitRun { projects, at, stage: Stage::Stop(handles, done), stopped },
            },
            Stage::Record => match farewell {
                Farewell::Done => {
                    let mut stopped = stopped;
                    let ghost earlier = crate::text::texts(stopped@);
                    stopped.push(projects[at].0.clone());
                    assert(crate::text::texts(stopped@) =~= earlier.push(projects@[at as int].0@));
                    QuitRun { projects, at: at + 1, stage: Stage::Look, stopped }
                },
                _ => QuitRun { projects, at, stage: Stage::Record, stopped },
            },
        }
    }

    /// Whether every project is dealt with.
    pub fn is_finished(&self) -> (finished: bool)
        ensures
            finished == self@.over(),
    {
        self.at >= self.projects.len()
    }

    /// The ids of the projects that were running and are now stopped, for the
    /// quit dialog to report.
    pub fn stopped(self) -> (ids: Vec<String>)
        ensures
            crate::text::texts(ids@) == self@.stopped,
    {
        self.stopped
    }
}

/// Everything that is ever written on the way out is that a project has
/// stopped, cleanly. What the user wants of it is not touched.
pub proof fn law_only_stops_are_recorded(quit: Quitting)
    requires
        quit.wf(),
    ensures
        match quit.request() {
            Leaving::RecordStopped(project_id, exit_code) => !quit.over() && project_id
                == quit.projects[quit.at].0 && exit_code == Some(0i64),
            _ => true,
        },
{
}

/// A project nothing of which is up is passed over: it is neither stopped nor
/// recorded.
pub proof fn law_a_project_that_is_down_is_passed_over(quit: Quitting, seen: Vec<(u64, HostStatus)>)
    requires
        quit.wf(),
        !quit.over(),
        quit.phase is Look,
        !crate::orchestrator::registry::some_up(quit.projects[quit.at].1, seen@),
    ensures
        quit.after(Farewell::Seen(seen)) == (Quitting { at: quit.at + 1, ..quit }),
{
}

/// Quitting after so many answers.
pub open spec fn after_all(quit: Quitting, answers: Seq<Farewell>) -> Quitting
    decreases answers.len(),
{
    if answers.len() == 0 {
        quit
    } else {
        after_all(quit.after(answers[0]), answers.skip(1))
    }
}

/// A project that is being stopped has every one of its handles stopped, in
/// the order given, is then recorded, and counts as stopped.
pub proof fn law_a_project_is_stopped_and_recorded(quit: Quitting, answers: Seq<Farewell>)
    requires
        quit.wf(),
        !quit.over(),
        quit.phase is Stop,
        answers.len() == quit.phase->Stop_0.len() - quit.phase->Stop_1 + 1,
        forall|k: int| 0 <= k < answers.len() ==> #[trigger] answers[k] is Done,
    ensures
        after_all(quit, answers) == (Quitting {
            at: quit.at + 1,
            phase: Phase::Look,
            stopped: quit.stopped.push(quit.projects[quit.at].0),
            ..quit
        }),
    decreases answers.len(),
{
    let next = quit.after(answers[0]);
    let rest = answers.skip(1);
    assert(answers[0] is Done);
    assert forall|k: int| 0 <= k < rest.len() implies #[trigger] rest[k] is Done by {
        assert(rest[k] == answers[k + 1]);
    }
    if quit.phase->Stop_1 + 1 < quit.phase->Stop_0.len() {
        law_a_project_is_stopped_and_recorded(next, rest);
    } else {
        assert(next.phase is Record);
        assert(rest.len() == 1);
        assert(rest[0] is Done);
        let last = next.after(rest[0]);
        assert(rest.skip(1) =~= Seq::empty());
        assert(after_all(last, rest.skip(1)) == last);
    }
}

/// Whether quitting has stopped, of the projects it dealt with, as many as had
/// a process up by what was seen, and is stopping only such a one.
pub open spec fn keeps_count(quit: Quitting, seen: Seq<(u64, HostStatus)>) -> bool {
    &&& quit.stopped.len() == crate::orchestrator::registry::count_up(
        quit.projects,
        seen,
        quit.at,
    )
    &&& quit.phase is Look || crate::orchestrator::registry::some_up(
        quit.projects[quit.at].1,
        seen,
    )
}

/// What is counted before quitting is what quitting stops: going by what was
/// seen when the user was asked, every answer keeps the count, and once every
/// project is dealt with as many were stopped as had a process up.
pub proof fn law_what_is_counted_is_what_is_stopped(
    quit: Quitting,
    seen: Seq<(u64, HostStatus)>,
    farewell: Farewell,
)
    requires
        quit.wf(),
        keeps_count(quit, seen),
        farewell matches Farewell::Seen(now) ==> now@ == seen,
    ensures
        keeps_count(quit.after(farewell), seen),
        quit.over() ==> quit.stopped.len() == crate::orchestrator::registry::count_up(
            quit.projects,
            seen,
            quit.projects.len() as int,
        ),
{
}

/// Every project is looked at, all of its handles at once and in their order.
pub proof fn law_every_process_is_looked_at(quit: Quitting)
    requires
        0 <= quit.at < quit.projects.len(),
        quit.phase is Look,
    ensures
        quit.request() is Look,
        quit.request()->Look_0.len() == quit.projects[quit.at].1.len(),
        forall|i: int|
            0 <= i < quit.projects[quit.at].1.len() ==> #[trigger] quit.request()->Look_0[i]
                == quit.projects[quit.at].1[i].handle,
{
}

/// A project that has a process up is stopped, last process first and every one
/// of them; one that has none is passed over, and nothing else changes.
pub proof fn law_a_project_that_is_up_is_stopped_last_one_first(
    quit: Quitting,
    seen: Vec<(u64, HostStatus)>,
)
    requires
        0 <= quit.at < quit.projects.len(),
        quit.phase is Look,
    ensures
        ({
            let processes = quit.projects[quit.at].1;
            let up = exists|i: int, k: int|
                0 <= i < processes.len() && 0 <= k < seen@.len() && (#[trigger] seen@[k]).0 == (
                #[trigger] processes[i]).handle && seen@[k].1 == HostStatus::Running;
            let after = quit.after(Farewell::Seen(seen));
            &&& after.projects == quit.projects
            &&& after.stopped == quit.stopped
            &&& !up ==> after.at == quit.at + 1 && after.phase is Look
            &&& up ==> after.at == quit.at && after.phase is Stop && after.phase->Stop_1 == 0
                && after.phase->Stop_0.len() == processes.len() && forall|k: int|
                0 <= k < processes.len() ==> #[trigger] after.phase->Stop_0[k]
                    == processes[processes.len() - 1 - k].handle
        }),
{
    crate::orchestrator::registry::law_one_running_process_keeps_a_project_up(
        quit.projects[quit.at].1,
        seen@,
    );
    crate::orchestrator::laws::law_every_process_is_stopped_in_its_turn(
        quit.projects[quit.at].1,
    );
}

/// The handles are stopped one by one, in the order they stand in; once the
/// last was, the project is recorded as stopped, and once it is recorded it
/// counts as stopped and the next one is looked at.
pub proof fn law_quitting_goes_step_by_step(quit: Quitting)
    requires
        0 <= quit.at < quit.projects.len(),
    ensures
        ({
            let after = quit.after(Farewell::Done);
            &&& quit.phase is Stop ==> {
                let handles = quit.phase->Stop_0;
                let done = quit.phase->Stop_1;
                &&& quit.request() == Leaving::Stop(handles[done])
                &&& after.at == quit.at
                &&& after.projects == quit.projects
                &&& after.stopped == quit.stopped
                &&& done + 1 < handles.len() ==> after.phase == Phase::Stop(handles, done + 1)
                &&& done + 1 >= handles.len() ==> after.phase is Record
            }
            &&& quit.phase is Record ==> {
                &&& quit.request() == Leaving::RecordStopped(quit.projects[quit.at].0, Some(0i64))
                &&& after.at == quit.at + 1
                &&& after.projects == quit.projects
                &&& after.phase is Look
                &&& after.stopped == quit.stopped.push(quit.projects[quit.at].0)
            }
            &&& quit.phase is Look ==> after == quit
        }),
{
}

/// Once every project is dealt with nothing more is asked, and what was not
/// asked for changes nothing.
pub proof fn law_quitting_ends(quit: Quitting, farewell: Farewell)
    ensures
        quit.at >= quit.projects.len() ==> quit.request() == Leaving::Nothing && quit.after(
            farewell,
        ) == quit,
        quit.over() <==> quit.at >= quit.projects.len(),
        !(quit.phase is Look) && farewell is Seen ==> quit.after(farewell) == quit,
{
}

/// A parting says what it is about.
pub proof fn law_a_parting_says_what_it_is_about(parting: Parting)
    ensures
        match parting {
            Parting::Look { handles } => parting@ == Leaving::Look(handles@),
            Parting::Stop { handle } => parting@ == Leaving::Stop(handle),
            Parting::RecordStopped { project_id, exit_code } => parting@ == Leaving::RecordStopped(
                project_id@,
                exit_code,
            ),
            Parting::Nothing => parting@ == Leaving::Nothing,
        },
{
}

} // verus!
