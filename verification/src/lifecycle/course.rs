//! Where each answer takes an operation, and what is asked on the way.

use super::run::{Admission, Answer, Errand, Operating, Operation, Phase};
use super::{Failure, LifecycleError, Shortfall};
use crate::orchestrator::observed::Observed;
use crate::records::{DesiredState, ProjectRecord, ProjectStatus};
use vstd::prelude::*;

verus! {

/// The same operation in another phase.
pub open spec fn moved_to(run: Operating, phase: Phase) -> Operating {
    Operating { phase, ..run }
}

/// What the user wants from then on: a project that is stopped or killed is to
/// stay down, any other is to run.
pub proof fn law_only_a_stop_wants_a_project_down(operation: Operation)
    ensures
        operation is Stop || operation is Kill <==> operation.wants() == DesiredState::Stopped,
        operation is Start || operation is Restart || operation is RestartProcess
            <==> operation.wants() == DesiredState::Running,
{
}

/// What a project is called while the operation is under way.
pub proof fn law_a_project_is_called_what_is_done_to_it(operation: Operation)
    ensures
        operation is Stop || operation is Kill <==> operation.announces()
            == ProjectStatus::Stopping,
        operation is Restart <==> operation.announces() == ProjectStatus::Restarting,
        operation is Start || operation is RestartProcess <==> operation.announces()
            == ProjectStatus::Starting,
{
}

/// A project that was found goes to the governor where it is to be started and
/// that is not forced, to the one process where only that is restarted, and to
/// having the intent written otherwise. One that was not found is refused.
pub proof fn law_a_project_is_looked_up_first(
    run: Operating,
    project: ProjectRecord,
    error: String,
)
    requires
        run.phase is Find,
    ensures
        run.request() == Errand::FindProject(run.project_id),
        run.after(Answer::Project(Ok(None))) == moved_to(
            run,
            Phase::Finished(Err(Failure::NoSuchProject(run.project_id))),
        ),
        run.after(Answer::Project(Err(error))) == moved_to(
            run,
            Phase::Finished(Err(Failure::Database(error@))),
        ),
        run.after(Answer::Project(Ok(Some(project)))) == moved_to(
            run,
            match run.operation {
                Operation::Start { force } => if force {
                    Phase::Desire(project)
                } else {
                    Phase::Admit(project)
                },
                Operation::RestartProcess { name } => Phase::RestartOne(project),
                Operation::Stop => Phase::Desire(project),
                Operation::Kill => Phase::Desire(project),
                Operation::Restart => Phase::Desire(project),
            },
        ),
{
}

/// The governor decides: a project it allows goes on, and one it refuses is
/// refused with its own numbers and words.
pub proof fn law_the_governor_decides(
    run: Operating,
    project: ProjectRecord,
    shortfall: Shortfall,
)
    requires
        run.phase == Phase::Admit(project),
    ensures
        run.request() == Errand::Admit(project),
        run.after(Answer::Admission(Admission::Allow)) == moved_to(run, Phase::Desire(project)),
        run.after(Answer::Admission(Admission::Refuse(shortfall))) == moved_to(
            run,
            Phase::Finished(
                Err(
                    Failure::NotEnoughMemory(
                        shortfall.headroom_bytes,
                        shortfall.explanation@,
                    ),
                ),
            ),
        ),
{
}

/// What the user wants is written, then what is being done; then a start is
/// carried out at once and anything else brings the project down first.
pub proof fn law_the_intent_then_the_status_then_the_work(
    run: Operating,
    project: ProjectRecord,
)
    ensures
        run.phase == Phase::Desire(project) ==> run.request() == Errand::SetDesired(
            run.project_id,
            if run.operation is Stop || run.operation is Kill {
                DesiredState::Stopped
            } else {
                DesiredState::Running
            },
        ) && run.after(Answer::Written(Ok(()))) == moved_to(run, Phase::Announce(project)),
        run.phase == Phase::Announce(project) ==> run.request() == Errand::SetStatus(
            run.project_id,
            if run.operation is Stop || run.operation is Kill {
                ProjectStatus::Stopping
            } else if run.operation is Restart {
                ProjectStatus::Restarting
            } else {
                ProjectStatus::Starting
            },
            None,
        ) && run.after(Answer::Written(Ok(()))) == moved_to(
            run,
            if run.operation is Start {
                Phase::Bring(project)
            } else {
                Phase::Halt(project)
            },
        ),
{
}

/// A project is killed where that was asked for and asked to stop otherwise. A
/// restart then brings it up again; anything else records that it stopped.
pub proof fn law_a_project_is_brought_down(run: Operating, project: ProjectRecord)
    requires
        run.phase == Phase::Halt(project),
    ensures
        run.request() == if run.operation is Kill {
            Errand::KillProject(project)
        } else {
            Errand::StopProject(project)
        },
        run.after(Answer::Halted) == moved_to(
            run,
            if run.operation is Restart {
                Phase::Bring(project)
            } else {
                Phase::RecordStopped
            },
        ),
{
}

/// A project is started from its own row, in its own directory, and what came
/// of it is noted before anything else.
pub proof fn law_a_project_is_brought_up(
    run: Operating,
    project: ProjectRecord,
    outcome: Result<Observed, LifecycleError>,
)
    requires
        run.phase == Phase::Bring(project),
    ensures
        run.request() == Errand::StartProject(project, project.directory@),
        run.after(Answer::Started(outcome)).project_id == run.project_id,
        run.after(Answer::Started(outcome)).operation == run.operation,
        run.after(Answer::Started(outcome)).phase is Note,
        match outcome {
            Ok(observed) => {
                let noted = run.after(Answer::Started(outcome)).phase->Note_0;
                &&& noted is Ok
                &&& noted->Ok_0.status == observed.status
                &&& noted->Ok_0.health == observed.health
                &&& noted->Ok_0.exit_code == observed.exit_code
            },
            Err(error) => run.after(Answer::Started(outcome)).phase == Phase::Note(Err(error@)),
        },
{
}

/// What is noted of a start is its status and health, or that it failed; then
/// the operation answers with that status's word, or with why it failed.
pub proof fn law_what_came_of_a_start_is_noted(run: Operating)
    requires
        run.phase is Note,
    ensures
        ({
            let noted = run.phase->Note_0;
            &&& noted is Ok ==> run.request() == Errand::SetStatus(
                run.project_id,
                noted->Ok_0.status,
                noted->Ok_0.health,
            )
            &&& noted is Err ==> run.request() == Errand::SetStatus(
                run.project_id,
                ProjectStatus::Failed,
                None,
            )
            &&& noted is Ok ==> run.after(Answer::Written(Ok(()))) == moved_to(
                run,
                Phase::Finished(Ok(Some(noted->Ok_0.status.word()))),
            )
            &&& noted is Err ==> run.after(Answer::Written(Ok(()))) == moved_to(
                run,
                Phase::Finished(Err(noted->Err_0)),
            )
        }),
{
}

/// A stop is recorded under the project's id, as clean unless it was a kill,
/// and answers with nothing.
pub proof fn law_a_stop_is_recorded(run: Operating)
    requires
        run.phase is RecordStopped,
    ensures
        run.request() is RecordStopped,
        run.request()->RecordStopped_0 == run.project_id,
        run.operation is Kill ==> run.request()->RecordStopped_1 is None,
        !(run.operation is Kill) ==> run.request()->RecordStopped_1 == Some(0i64),
        run.after(Answer::Written(Ok(()))) == moved_to(
            run,
            Phase::Finished(Ok::<Option<Seq<char>>, Failure>(None)),
        ),
{
}

/// One process is restarted by its name, in the project's own directory; what
/// came of that is what the operation answers.
pub proof fn law_one_process_is_restarted_by_name(
    run: Operating,
    project: ProjectRecord,
    error: LifecycleError,
)
    requires
        run.phase == Phase::RestartOne(project),
        run.operation is RestartProcess,
    ensures
        run.request() == Errand::RestartProcess(
            project,
            project.directory@,
            run.operation->RestartProcess_name@,
        ),
        run.after(Answer::Restarted(Ok(()))) == moved_to(
            run,
            Phase::Finished(Ok::<Option<Seq<char>>, Failure>(None)),
        ),
        run.after(Answer::Restarted(Err(error))) == moved_to(run, Phase::Finished(Err(error@))),
{
}

/// Whatever cannot be written ends the operation, in the database's words.
pub proof fn law_a_failed_write_ends_the_operation(run: Operating, error: String)
    requires
        run.phase is Desire || run.phase is Announce || run.phase is Note || run.phase
            is RecordStopped,
    ensures
        run.after(Answer::Written(Err(error))) == moved_to(
            run,
            Phase::Finished(Err(Failure::Database(error@))),
        ),
{
}

/// Whether an answer is one to what is asked in a phase.
pub open spec fn answers(phase: Phase, answer: Answer) -> bool {
    match phase {
        Phase::Find => answer is Project,
        Phase::Admit(project) => answer is Admission,
        Phase::Desire(project) => answer is Written,
        Phase::Announce(project) => answer is Written,
        Phase::Halt(project) => answer is Halted,
        Phase::Bring(project) => answer is Started,
        Phase::Note(outcome) => answer is Written,
        Phase::RecordStopped => answer is Written,
        Phase::RestartOne(project) => answer is Restarted,
        Phase::Finished(result) => false,
    }
}

/// An answer to something that was not asked changes nothing, and once an
/// operation is over nothing more is asked.
pub proof fn law_an_operation_listens_to_what_it_asked(run: Operating, answer: Answer)
    ensures
        !answers(run.phase, answer) ==> run.after(answer) == run,
        run.phase is Finished ==> run.request() == Errand::Nothing,
{
}

/// What the user is shown of a failure: the words of what failed, after what it
/// was doing where those words do not say.
pub proof fn law_a_failure_is_told_in_its_own_words(failure: Failure)
    ensures
        match failure {
            Failure::Database(error) => failure.text() == "database error: "@ + error,
            Failure::NoSuchProject(project) => failure.text() == "no project with id "@ + project,
            Failure::Scaffold(error) => failure.text()
                == "could not prepare the project directory: "@ + error,
            Failure::Build(error) => failure.text() == "the build failed: "@ + error,
            Failure::ToolchainMissing(runtime, looked_for) => failure.text() == runtime
                + " is not installed on this machine; looked for "@ + crate::text::joined(
                looked_for,
                ", "@,
            ),
            Failure::Host(error) => failure.text() == error,
            Failure::Command(error) => failure.text() == error,
            Failure::NotEnoughMemory(headroom, explanation) => failure.text() == explanation,
            Failure::PortConflict(explanation) => failure.text() == explanation,
            Failure::NoProcesses(project) => failure.text() == "project `"@ + project
                + "` has no processes to run"@,
            Failure::NoSuchProcess(project, process) => failure.text() == "project `"@ + project
                + "` has no process named `"@ + process + "`"@,
        },
{
}

/// An error is read as it is written.
pub proof fn law_an_error_is_read_whole(error: LifecycleError)
    ensures
        match error {
            LifecycleError::Database(words) => error@ == Failure::Database(words@),
            LifecycleError::NoSuchProject(project) => error@ == Failure::NoSuchProject(project@),
            LifecycleError::Scaffold(words) => error@ == Failure::Scaffold(words@),
            LifecycleError::Build(words) => error@ == Failure::Build(words@),
            LifecycleError::ToolchainMissing { runtime, looked_for } => error@ is ToolchainMissing
                && error@->ToolchainMissing_0 == runtime@ && error@->ToolchainMissing_1.len()
                == looked_for@.len() && forall|i: int|
                0 <= i < looked_for@.len() ==> #[trigger] error@->ToolchainMissing_1[i]
                    == looked_for@[i]@,
            LifecycleError::Host(words) => error@ == Failure::Host(words@),
            LifecycleError::Command(words) => error@ == Failure::Command(words@),
            LifecycleError::NotEnoughMemory(shortfall) => error@ == Failure::NotEnoughMemory(
                shortfall.headroom_bytes,
                shortfall.explanation@,
            ),
            LifecycleError::PortConflict(conflict) => error@ == Failure::PortConflict(
                conflict.explanation@,
            ),
            LifecycleError::NoProcesses(project) => error@ == Failure::NoProcesses(project@),
            LifecycleError::NoSuchProcess { project, process } => error@ == Failure::NoSuchProcess(
                project@,
                process@,
            ),
        },
{
}

/// A chore says what it is about.
pub proof fn law_a_chore_says_what_it_is_about(chore: super::run::Chore)
    ensures
        match chore {
            super::run::Chore::FindProject { project_id } => chore@ == Errand::FindProject(
                project_id@,
            ),
            super::run::Chore::Admit { project } => chore@ == Errand::Admit(project),
            super::run::Chore::SetDesired { project_id, desired } => chore@ == Errand::SetDesired(
                project_id@,
                desired,
            ),
            super::run::Chore::SetStatus { project_id, status, health } => chore@
                == Errand::SetStatus(project_id@, status, health),
            super::run::Chore::StopProject { project } => chore@ == Errand::StopProject(project),
            super::run::Chore::KillProject { project } => chore@ == Errand::KillProject(project),
            super::run::Chore::StartProject { context } => chore@ == Errand::StartProject(
                context.project,
                context.directory@,
            ),
            super::run::Chore::RestartProcess { context, name } => chore@
                == Errand::RestartProcess(context.project, context.directory@, name@),
            super::run::Chore::RecordStopped { project_id, exit_code } => chore@
                == Errand::RecordStopped(project_id@, exit_code),
            super::run::Chore::Nothing => chore@ == Errand::Nothing,
        },
{
}

/// What an operation, a start and a restart came to is passed on.
pub proof fn law_what_came_of_it_is_passed_on(
    word: Result<Option<String>, LifecycleError>,
    observed: Result<Observed, LifecycleError>,
    restarted: Result<(), LifecycleError>,
)
    ensures
        word is Ok ==> super::run::came_to(word) is Ok && (super::run::came_to(word)->Ok_0 is Some
            <==> word->Ok_0 is Some),
        word is Ok && word->Ok_0 is Some ==> super::run::came_to(word)->Ok_0->0 == word->Ok_0->0@,
        word is Err ==> super::run::came_to(word) == Err::<Option<Seq<char>>, Failure>(
            word->Err_0@,
        ),
        observed is Ok ==> crate::orchestrator::start::came_to(observed) == Ok::<
            crate::orchestrator::observed::Seen,
            Failure,
        >(observed->Ok_0@),
        observed is Err ==> crate::orchestrator::start::came_to(observed) == Err::<
            crate::orchestrator::observed::Seen,
            Failure,
        >(observed->Err_0@),
        restarted is Ok ==> crate::orchestrator::restart::came_to(restarted) is Ok,
        restarted is Err ==> crate::orchestrator::restart::came_to(restarted) == Err::<
            (),
            Failure,
        >(restarted->Err_0@),
{
}

} // verus!
