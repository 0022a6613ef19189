//! One lifecycle operation on one project, from the request to the row.
//!
//! The sequence of a start, and why it is this order: it is admitted before
//! anything is written or spawned, so that a refusal leaves the project exactly
//! as it was; the intent is written; the orchestrator does the work; and what
//! was observed is recorded, never what was intended. Every outcome of a start
//! goes through the same phase, which is what makes that last rule a property
//! of this module rather than a habit of each caller.

use super::{LifecycleError, Shortfall};
use crate::orchestrator::StartContext;
use crate::orchestrator::observed::Observed;
use crate::records::{DesiredState, HealthState, ProjectRecord, ProjectStatus};
use vstd::prelude::*;

verus! {

/// What the user asked of a project.
#[derive(Debug)]
pub enum Operation {
    /// `force` skips the memory check. The estimate can be wrong and the user
    /// knows things the governor does not.
    Start { force: bool },
    Stop,
    Kill,
    Restart,
    RestartProcess { name: String },
}

/// What the governor says of one more project.
#[derive(Debug)]
pub enum Admission {
    Allow,
    Refuse(Shortfall),
}

/// One thing to be done for an operation.
#[derive(Debug)]
pub enum Chore {
    FindProject { project_id: String },
    /// Ask the governor whether the machine can take the project.
    Admit { project: ProjectRecord },
    SetDesired { project_id: String, desired: DesiredState },
    SetStatus { project_id: String, status: ProjectStatus, health: Option<HealthState> },
    StopProject { project: ProjectRecord },
    KillProject { project: ProjectRecord },
    StartProject { context: StartContext },
    RestartProcess { context: StartContext, name: String },
    RecordStopped { project_id: String, exit_code: Option<i64> },
    /// Nothing is left to do.
    Nothing,
}

/// What came of a chore.
#[derive(Debug)]
pub enum Answer {
    Project(Result<Option<ProjectRecord>, String>),
    Admission(Admission),
    Written(Result<(), String>),
    Halted,
    Started(Result<Observed, LifecycleError>),
    Restarted(Result<(), LifecycleError>),
}

/// A chore as a mathematical value.
pub enum Errand {
    FindProject(Seq<char>),
    Admit(ProjectRecord),
    SetDesired(Seq<char>, DesiredState),
    SetStatus(Seq<char>, ProjectStatus, Option<HealthState>),
    StopProject(ProjectRecord),
    KillProject(ProjectRecord),
    StartProject(ProjectRecord, Seq<char>),
    RestartProcess(ProjectRecord, Seq<char>, Seq<char>),
    RecordStopped(Seq<char>, Option<i64>),
    Nothing,
}

impl View for Chore {
    type V = Errand;

    open spec fn view(&self) -> Errand {
        match self {
            Chore::FindProject { project_id } => Errand::FindProject(project_id@),
            Chore::Admit { project } => Errand::Admit(*project),
            Chore::SetDesired { project_id, desired } => Errand::SetDesired(project_id@, *desired),
            Chore::SetStatus { project_id, status, health } => Errand::SetStatus(
                project_id@,
                *status,
                *health,
            ),
            Chore::StopProject { project } => Errand::StopProject(*project),
            Chore::KillProject { project } => Errand::KillProject(*project),
            Chore::StartProject { context } => Errand::StartProject(
                context.project,
                context.directory@,
            ),
            Chore::RestartProcess { context, name } => Errand::RestartProcess(
                context.project,
                context.directory@,
                name@,
            ),
            Chore::RecordStopped { project_id, exit_code } => Errand::RecordStopped(
                project_id@,
                *exit_code,
            ),
            Chore::Nothing => Errand::Nothing,
        }
    }
}

#[derive(Debug)]
enum Stage {
    Find,
    Admit(ProjectRecord),
    Desire(ProjectRecord),
    Announce(ProjectRecord),
    Halt(ProjectRecord),
    Bring(ProjectRecord),
    /// Writing what came of a start.
    Note(Result<Observed, LifecycleError>),
    RecordStopped,
    RestartOne(ProjectRecord),
    Finished(Result<Option<String>, LifecycleError>),
}

/// Where an operation is, as a mathematical value.
pub enum Phase {
    Find,
    Admit(ProjectRecord),
    Desire(ProjectRecord),
    Announce(ProjectRecord),
    Halt(ProjectRecord),
    Bring(ProjectRecord),
    Note(Result<crate::orchestrator::observed::Seen, super::Failure>),
    RecordStopped,
    RestartOne(ProjectRecord),
    Finished(Result<Option<Seq<char>>, super::Failure>),
}

/// What a finished operation came to, as a mathematical value.
pub open spec fn came_to(result: Result<Option<String>, LifecycleError>) -> Result<
    Option<Seq<char>>,
    super::Failure,
> {
    match result {
        Ok(word) => Ok(crate::text::optional(word)),
        Err(error) => Err(error@),
    }
}

impl View for Stage {
    type V = Phase;

    closed spec fn view(&self) -> Phase {
        match self {
            Stage::Find => Phase::Find,
            Stage::Admit(project) => Phase::Admit(*project),
            Stage::Desire(project) => Phase::Desire(*project),
            Stage::Announce(project) => Phase::Announce(*project),
            Stage::Halt(project) => Phase::Halt(*project),
            Stage::Bring(project) => Phase::Bring(*project),
            Stage::Note(outcome) => Phase::Note(
                crate::orchestrator::start::came_to(*outcome),
            ),
            Stage::RecordStopped => Phase::RecordStopped,
            Stage::RestartOne(project) => Phase::RestartOne(*project),
            Stage::Finished(result) => Phase::Finished(came_to(*result)),
        }
    }
}

/// An operation under way, as a mathematical value.
pub struct Operating {
    pub project_id: Seq<char>,
    pub operation: Operation,
    pub phase: Phase,
}

impl Operation {
    /// What the user wants of the project from then on.
    pub open spec fn wants(self) -> DesiredState {
        match self {
            Operation::Stop => DesiredState::Stopped,
            Operation::Kill => DesiredState::Stopped,
            _ => DesiredState::Running,
        }
    }

    /// The word for a project while the operation is under way.
    pub open spec fn announces(self) -> ProjectStatus {
        match self {
            Operation::Stop => ProjectStatus::Stopping,
            Operation::Kill => ProjectStatus::Stopping,
            Operation::Restart => ProjectStatus::Restarting,
            _ => ProjectStatus::Starting,
        }
    }

    fn desired(&self) -> (desired: DesiredState)
        ensures
            desired == self.wants(),
    {
        match self {
            Operation::Stop | Operation::Kill => DesiredState::Stopped,
            _ => DesiredState::Running,
        }
    }

    fn transitional(&self) -> (status: ProjectStatus)
        ensures
            status == self.announces(),
    {
        match self {
            Operation::Stop | Operation::Kill => ProjectStatus::Stopping,
            Operation::Restart => ProjectStatus::Restarting,
            _ => ProjectStatus::Starting,
        }
    }
}

impl Operating {
    pub open spec fn at(self, phase: Phase) -> Operating {
        Operating { phase, ..self }
    }

    pub open spec fn failed(self, failure: super::Failure) -> Operating {
        self.at(Phase::Finished(Err(failure)))
    }

    /// What is to be done next.
    pub open spec fn request(self) -> Errand {
        match self.phase {
            Phase::Find => Errand::FindProject(self.project_id),
            Phase::Admit(project) => Errand::Admit(project),
            Phase::Desire(project) => Errand::SetDesired(self.project_id, self.operation.wants()),
            Phase::Announce(project) => Errand::SetStatus(
                self.project_id,
                self.operation.announces(),
                None,
            ),
            Phase::Halt(project) => if self.operation is Kill {
                Errand::KillProject(project)
            } else {
                Errand::StopProject(project)
            },
            Phase::Bring(project) => Errand::StartProject(project, project.directory@),
            Phase::Note(outcome) => match outcome {
                Ok(seen) => Errand::SetStatus(self.project_id, seen.status, seen.health),
                Err(failure) => Errand::SetStatus(self.project_id, ProjectStatus::Failed, None),
            },
            Phase::RecordStopped => Errand::RecordStopped(
                self.project_id,
                if self.operation is Kill {
                    None
                } else {
                    Some(0)
                },
            ),
            Phase::RestartOne(project) => Errand::RestartProcess(
                project,
                project.directory@,
                match self.operation {
                    Operation::RestartProcess { name } => name@,
                    _ => Seq::empty(),
                },
            ),
            Phase::Finished(result) => Errand::Nothing,
        }
    }

    /// The operation once an answer came. An answer to something that was not
    /// asked changes nothing.
    pub open spec fn after(self, answer: Answer) -> Operating {
        match (self.phase, answer) {
            (Phase::Find, Answer::Project(result)) => match result {
                Ok(Some(project)) => self.at(
                    match self.operation {
                        Operation::Start { force } => if force {
                            Phase::Desire(project)
                        } else {
                            Phase::Admit(project)
                        },
                        Operation::RestartProcess { name } => Phase::RestartOne(project),
                        _ => Phase::Desire(project),
                    },
                ),
                Ok(None) => self.failed(super::Failure::NoSuchProject(self.project_id)),
                Err(error) => self.failed(super::Failure::Database(error@)),
            },
            (Phase::Admit(project), Answer::Admission(decision)) => match decision {
                Admission::Allow => self.at(Phase::Desire(project)),
                Admission::Refuse(shortfall) => self.failed(
                    super::Failure::NotEnoughMemory(
                        shortfall.headroom_bytes,
                        shortfall.explanation@,
                    ),
                ),
            },
            (Phase::Desire(project), Answer::Written(result)) => match result {
                Ok(()) => self.at(Phase::Announce(project)),
                Err(error) => self.failed(super::Failure::Database(error@)),
            },
            (Phase::Announce(project), Answer::Written(result)) => match result {
                Ok(()) => if self.operation is Start {
                    self.at(Phase::Bring(project))
                } else {
                    self.at(Phase::Halt(project))
                },
                Err(error) => self.failed(super::Failure::Database(error@)),
            },
            // A restart is a stop followed by a start. There is no image to
            // keep, so there is nothing a dedicated restart path could save.
            (Phase::Halt(project), Answer::Halted) => if self.operation is Restart {
                self.at(Phase::Bring(project))
            } else {
                self.at(Phase::RecordStopped)
            },
            (Phase::Bring(project), Answer::Started(outcome)) => self.at(
                Phase::Note(crate::orchestrator::start::came_to(outcome)),
            ),
            (Phase::Note(outcome), Answer::Written(result)) => match result {
                Ok(()) => self.at(
                    Phase::Finished(
                        match outcome {
                            Ok(seen) => Ok(Some(seen.status.word())),
                            Err(failure) => Err(failure),
                        },
                    ),
                ),
                Err(error) => self.failed(super::Failure::Database(error@)),
            },
            (Phase::RecordStopped, Answer::Written(result)) => match result {
                Ok(()) => self.at(Phase::Finished(Ok(None))),
                Err(error) => self.failed(super::Failure::Database(error@)),
            },
            (Phase::RestartOne(project), Answer::Restarted(result)) => match result {
                Ok(()) => self.at(Phase::Finished(Ok(None))),
                Err(error) => self.failed(error@),
            },
            _ => self,
        }
    }
}

/// An operation under way.
#[derive(Debug)]
pub struct LifecycleRun {
    project_id: String,
    operation: Operation,
    stage: Stage,
}

impl View for LifecycleRun {
    type V = Operating;

    closed spec fn view(&self) -> Operating {
        Operating { project_id: self.project_id@, operation: self.operation, phase: self.stage@ }
    }
}

fn context_of(project: &ProjectRecord) -> (context: StartContext)
    ensures
        context.project == *project,
        context.directory@ == project.directory@,
{
    StartContext { project: project.clone(), directory: project.directory.clone() }
}

impl LifecycleRun {
    fn begin(project_id: &str, operation: Operation) -> (run: LifecycleRun)
        ensures
            run@ == (Operating { project_id: project_id@, operation, phase: Phase::Find }),
    {
        LifecycleRun { project_id: project_id.to_owned(), operation, stage: Stage::Find }
    }

    fn at(self, stage: Stage) -> (run: LifecycleRun)
        ensures
            run@ == self@.at(stage@),
    {
        LifecycleRun { stage, ..self }
    }

    fn failed(self, error: LifecycleError) -> (run: LifecycleRun)
        ensures
            run@ == self@.failed(error@),
    {
        self.at(Stage::Finished(Err(error)))
    }

    /// What is to be done next.
    pub fn request(&self) -> (chore: Chore)
        ensures
            chore@ == self@.request(),
    {
        match &self.stage {
            Stage::Find => Chore::FindProject { project_id: self.project_id.clone() },
            Stage::Admit(project) => Chore::Admit { project: project.clone() },
            Stage::Desire(_) => Chore::SetDesired {
                project_id: self.project_id.clone(),
                desired: self.operation.desired(),
            },
            Stage::Announce(_) => Chore::SetStatus {
                project_id: self.project_id.clone(),
                status: self.operation.transitional(),
                health: None,
            },
            Stage::Halt(project) => match &self.operation {
                Operation::Kill => Chore::KillProject { project: project.clone() },
                _ => Chore::StopProject { project: project.clone() },
            },
            Stage::Bring(project) => Chore::StartProject { context: context_of(project) },
            Stage::Note(outcome) => match outcome {
                Ok(observed) => Chore::SetStatus {
                    project_id: self.project_id.clone(),
                    status: observed.status,
                    health: observed.health,
                },
                // The observed status is FAILED whatever the intent was.
                // Recording the intent as the status is how a panel ends up
                // claiming a project runs when it does not.
                Err(_) => Chore::SetStatus {
                    project_id: self.project_id.clone(),
                    status: ProjectStatus::Failed,
                    health: None,
                },
            },
            Stage::RecordStopped => Chore::RecordStopped {
                project_id: self.project_id.clone(),
                exit_code: match &self.operation {
                    Operation::Kill => None,
                    // A user-requested stop is a clean one.
                    _ => Some(0),
                },
            },
            Stage::RestartOne(project) => Chore::RestartProcess {
                context: context_of(project),
                name: match &self.operation {
                    Operation::RestartProcess { name } => name.clone(),
                    _ => String::new(),
                },
            },
            Stage::Finished(_) => Chore::Nothing,
        }
    }

    /// Take what came of the chore, and decide what follows.
    pub fn step(self, answer: Answer) -> (next: LifecycleRun)
        ensures
            next@ == self@.after(answer),
    {
        let LifecycleRun { project_id, operation, stage } = self;
        let run = LifecycleRun { project_id, operation, stage: Stage::Find };
        match stage {
            Stage::Find => match answer {
                Answer::Project(Ok(Some(project))) => match &run.operation {
                    Operation::Start { force } => if *force {
                        run.at(Stage::Desire(project))
                    } else {
                        run.at(Stage::Admit(project))
                    },
                    Operation::RestartProcess { .. } => run.at(Stage::RestartOne(project)),
                    _ => run.at(Stage::Desire(project)),
                },
                Answer::Project(Ok(None)) => {
                    let id = run.project_id.clone();
                    run.failed(LifecycleError::NoSuchProject(id))
                },
                Answer::Project(Err(error)) => run.failed(LifecycleError::Database(error)),
                _ => run.at(Stage::Find),
            },
            Stage::Admit(project) => match answer {
                Answer::Admission(Admission::Allow) => run.at(Stage::Desire(project)),
                Answer::Admission(Admission::Refuse(shortfall)) => run.failed(
                    LifecycleError::NotEnoughMemory(shortfall),
                ),
                _ => run.at(Stage::Admit(project)),
            },
            Stage::Desire(project) => match answer {
                Answer::Written(Ok(_)) => run.at(Stage::Announce(project)),
                Answer::Written(Err(error)) => run.failed(LifecycleError::Database(error)),
                _ => run.at(Stage::Desire(project)),
            },
            Stage::Announce(project) => match answer {
                Answer::Written(Ok(_)) => match &run.operation {
                    Operation::Start { .. } => run.at(Stage::Bring(project)),
                    _ => run.at(Stage::Halt(project)),
                },
                Answer::Written(Err(error)) => run.failed(LifecycleError::Database(error)),
                _ => run.at(Stage::Announce(project)),
            },
            Stage::Halt(project) => match answer {
                Answer::Halted => match &run.operation {
                    Operation::Restart => run.at(Stage::Bring(project)),
                    _ => run.at(Stage::RecordStopped),
                },
                _ => run.at(Stage::Halt(project)),
            },
            Stage::Bring(project) => match answer {
                Answer::Started(outcome) => run.at(Stage::Note(outcome)),
                _ => run.at(Stage::Bring(project)),
            },
            Stage::Note(outcome) => match answer {
                Answer::Written(Ok(_)) => match outcome {
                    Ok(observed) => run.at(
                        Stage::Finished(Ok(Some(observed.status.as_str().to_owned()))),
                    ),
                    Err(error) => run.failed(error),
                },
                Answer::Written(Err(error)) => run.failed(LifecycleError::Database(error)),
                _ => run.at(Stage::Note(outcome)),
            },
            Stage::RecordStopped => match answer {
                Answer::Written(Ok(_)) => run.at(Stage::Finished(Ok(None))),
                Answer::Written(Err(error)) => run.failed(LifecycleError::Database(error)),
                _ => run.at(Stage::RecordStopped),
            },
            Stage::RestartOne(project) => match answer {
                Answer::Restarted(Ok(_)) => run.at(Stage::Finished(Ok(None))),
                Answer::Restarted(Err(error)) => run.failed(error),
                _ => run.at(Stage::RestartOne(project)),
            },
            Stage::Finished(result) => run.at(Stage::Finished(result)),
        }
    }

    /// What the operation came to, once nothing is left to do. A start and a
    /// restart answer with the status word that was written.
    pub fn outcome(self) -> (outcome: Option<Result<Option<String>, LifecycleError>>)
        ensures
            outcome is Some == (self@.phase is Finished),
            outcome matches Some(result) ==> self@.phase == Phase::Finished(came_to(result)),
    {
        match self.stage {
            Stage::Finished(result) => Some(result),
            _ => None,
        }
    }

    /// Whether nothing is left to do.
    pub fn is_finished(&self) -> (finished: bool)
        ensures
            finished == (self@.phase is Finished),
    {
        match &self.stage {
            Stage::Finished(_) => true,
            _ => false,
        }
    }
}

/// Start a project: install, build, then every process in order.
///
/// `force` skips the memory check: overriding is offered on refusal, as a
/// button in a dialog that states the numbers, never as a setting that turns
/// the governor off.
pub fn start_forcing(project_id: &str, force: bool) -> (run: LifecycleRun)
    ensures
        run@ == (Operating {
            project_id: project_id@,
            operation: Operation::Start { force },
            phase: Phase::Find,
        }),
{
    LifecycleRun::begin(project_id, Operation::Start { force })
}

/// Start a project, refusing if this machine cannot take another.
pub fn start(project_id: &str) -> (run: LifecycleRun)
    ensures
        run@ == (Operating {
            project_id: project_id@,
            operation: Operation::Start { force: false },
            phase: Phase::Find,
        }),
{
    start_forcing(project_id, false)
}

/// Stop a project. Its data volume and files are untouched.
pub fn stop(project_id: &str) -> (run: LifecycleRun)
    ensures
        run@ == (Operating {
            project_id: project_id@,
            operation: Operation::Stop,
            phase: Phase::Find,
        }),
{
    LifecycleRun::begin(project_id, Operation::Stop)
}

/// Kill a project immediately. Its data volume and files are untouched.
pub fn kill(project_id: &str) -> (run: LifecycleRun)
    ensures
        run@ == (Operating {
            project_id: project_id@,
            operation: Operation::Kill,
            phase: Phase::Find,
        }),
{
    LifecycleRun::begin(project_id, Operation::Kill)
}

/// Restart a project in place.
pub fn restart(project_id: &str) -> (run: LifecycleRun)
    ensures
        run@ == (Operating {
            project_id: project_id@,
            operation: Operation::Restart,
            phase: Phase::Find,
        }),
{
    LifecycleRun::begin(project_id, Operation::Restart)
}

/// Restart one of a project's processes, leaving its siblings alone.
///
/// Separate from [`restart`], which restarts the whole project: the user
/// pointed at one process, and the others keep their pids.
pub fn restart_process(project_id: &str, process_name: &str) -> (run: LifecycleRun)
    ensures
        run@.project_id == project_id@,
        run@.operation matches Operation::RestartProcess { name } && name@ == process_name@,
        run@.phase == Phase::Find,
{
    LifecycleRun::begin(
        project_id,
        Operation::RestartProcess { name: process_name.to_owned() },
    )
}

/// Whether a chore changes anything.
pub open spec fn changes(errand: Errand) -> bool {
    !(errand is FindProject || errand is Admit || errand is Nothing)
}

/// What every operation keeps: a forced start never comes before the governor,
/// nor does anything but a start.
pub open spec fn ordinary(run: Operating) -> bool {
    &&& run.phase is Admit ==> run.operation is Start && !run.operation->Start_force
    &&& run.phase is Halt ==> !(run.operation is Start)
    &&& (run.phase is Bring || run.phase is Note) ==> run.operation is Start || run.operation
        is Restart
    &&& run.phase is RecordStopped ==> run.operation is Stop || run.operation is Kill
    &&& run.phase is RestartOne ==> run.operation is RestartProcess
    &&& (run.phase is Desire || run.phase is Announce || run.phase is Halt) ==> !(run.operation
        is RestartProcess)
}

/// Every operation stays ordinary.
pub proof fn law_an_operation_stays_ordinary(run: Operating, answer: Answer)
    requires
        ordinary(run),
    ensures
        ordinary(run.after(answer)),
        run.after(answer).operation == run.operation,
        run.after(answer).project_id == run.project_id,
{
}

/// A refusal leaves the project exactly as it was: nothing is written, stopped
/// or started before the project is found and, unless it is forced, admitted.
pub proof fn law_a_refusal_changes_nothing(run: Operating, answer: Answer)
    requires
        ordinary(run),
        run.phase is Find || run.phase is Admit,
    ensures
        !changes(run.request()),
        run.after(answer).phase matches Phase::Finished(result) ==> result is Err && !changes(
            run.after(answer).request(),
        ),
{
}

/// A project the machine has no room for is refused, and a forced start is
/// not: the governor is not asked at all.
pub proof fn law_forcing_gets_past_the_governor(run: Operating, answer: Answer)
    requires
        ordinary(run),
        run.phase is Find,
        answer matches Answer::Project(Ok(Some(_))),
    ensures
        run.operation == (Operation::Start { force: true }) ==> run.after(answer).phase is Desire,
        run.operation == (Operation::Start { force: false }) ==> run.after(answer).request()
            is Admit,
{
}

/// The intent is written first and the transitional status second, before
/// anything is stopped or started.
pub proof fn law_the_intent_is_written_first(run: Operating, answer: Answer)
    requires
        ordinary(run),
        !(run.operation is RestartProcess),
        run.after(answer).phase != run.phase,
    ensures
        run.after(answer).phase is Announce ==> run.request() == Errand::SetDesired(
            run.project_id,
            run.operation.wants(),
        ),
        run.after(answer).phase is Halt ==> run.request() == Errand::SetStatus(
            run.project_id,
            run.operation.announces(),
            None,
        ),
        run.after(answer).phase is Bring ==> run.request() == Errand::SetStatus(
            run.project_id,
            run.operation.announces(),
            None,
        ) || (run.operation is Restart && run.request() is StopProject),
{
}

/// The status that is recorded is the one that was observed, and failed where
/// the start failed, whatever was intended.
pub proof fn law_what_was_observed_is_recorded(
    run: Operating,
    outcome: Result<Observed, LifecycleError>,
)
    requires
        run.phase is Bring,
    ensures
        run.after(Answer::Started(outcome)).request() == match outcome {
            Ok(observed) => Errand::SetStatus(run.project_id, observed.status, observed.health),
            Err(error) => Errand::SetStatus(run.project_id, ProjectStatus::Failed, None),
        },
{
}

/// A start that is over answers with the word it wrote, or with why it failed.
pub proof fn law_a_start_answers_with_the_word_it_wrote(
    run: Operating,
    outcome: Result<Observed, LifecycleError>,
)
    requires
        run.phase is Bring,
    ensures
        run.after(Answer::Started(outcome)).after(Answer::Written(Ok(()))).phase
            == Phase::Finished(
            match outcome {
                Ok(observed) => Ok(Some(observed.status.word())),
                Err(error) => Err(error@),
            },
        ),
{
}

/// Stopping a project is recorded as a clean stop, killing it is not.
pub proof fn law_a_requested_stop_is_clean(run: Operating)
    requires
        ordinary(run),
        run.phase is RecordStopped,
    ensures
        run.request() == Errand::RecordStopped(
            run.project_id,
            if run.operation is Stop {
                Some(0i64)
            } else {
                None
            },
        ),
{
}

} // verus!
