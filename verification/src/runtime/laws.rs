//! What each reply makes of a launch.

use super::{
    LaunchReply, LaunchTask, Launching, Phase, RuntimeError, ShutdownStep, Task, Unlaunched,
};
use vstd::prelude::*;

verus! {

/// The same launch in another phase.
pub open spec fn moved_to(launch: Launching, phase: Phase) -> Launching {
    Launching { phase, ..launch }
}

/// The same launch in another phase, with a stage recorded.
pub open spec fn noted(
    launch: Launching,
    name: Seq<char>,
    millis: u128,
    outcome: Seq<char>,
    phase: Phase,
) -> Launching {
    Launching { timings: launch.timings.with(name, millis as int, outcome), phase, ..launch }
}

/// The directories come first, and a launch without them fails.
pub proof fn law_directories_come_first(launch: Launching, millis: u128, error: String)
    requires
        launch.phase is Directories,
    ensures
        launch.request() == Task::EnsureDirectories,
        launch.after(LaunchReply::Directories { result: Ok(()), millis }) == noted(
            launch,
            "directories"@,
            millis,
            "ok"@,
            Phase::Open,
        ),
        launch.after(LaunchReply::Directories { result: Err(error), millis }) == moved_to(
            launch,
            Phase::Finished(Err(Unlaunched::Directories(error@))),
        ),
{
}

/// The database is opened and its schema is accepted before its version is
/// read; only then is the database recorded, and the version kept.
pub proof fn law_the_database_comes_second(
    launch: Launching,
    version: i64,
    millis: u128,
    error: String,
)
    ensures
        launch.phase is Open ==> launch.request() == Task::OpenDatabase && launch.after(
            LaunchReply::Opened(Ok(())),
        ) == moved_to(launch, Phase::Assert) && launch.after(LaunchReply::Opened(Err(error)))
            == moved_to(launch, Phase::Finished(Err(Unlaunched::Database(error@)))),
        launch.phase is Assert ==> launch.request() == Task::AssertSchema && launch.after(
            LaunchReply::Asserted(Ok(())),
        ) == moved_to(launch, Phase::Version) && launch.after(LaunchReply::Asserted(Err(error)))
            == moved_to(launch, Phase::Finished(Err(Unlaunched::Database(error@)))),
        launch.phase is Version ==> ({
            let after = launch.after(LaunchReply::SchemaVersion { result: Ok(version), millis });
            &&& launch.request() == Task::ReadSchemaVersion
            &&& after.schema_version == version
            &&& after.instance_id == launch.instance_id
            &&& after.has_master_key == launch.has_master_key
            &&& after.timings == launch.timings.with("database"@, millis as int, "ok"@)
            &&& after.phase == Phase::Session
            &&& launch.after(LaunchReply::SchemaVersion { result: Err(error), millis })
                == moved_to(launch, Phase::Finished(Err(Unlaunched::Database(error@))))
        }),
{
}

/// A session is begun under the version that was read and the instance's own
/// id, and whether the last one ended cleanly is what recovery goes by.
pub proof fn law_recovery_goes_by_the_last_session(
    launch: Launching,
    was_clean: bool,
    intact: bool,
    millis: u128,
    error: String,
)
    ensures
        launch.phase is Session ==> launch.request() == Task::BeginSession(
            launch.schema_version,
            launch.instance_id,
            "in-process"@,
        ) && launch.after(LaunchReply::Session { result: Ok(was_clean), millis }) == noted(
            launch,
            "session"@,
            millis,
            "ok"@,
            Phase::Recovery(was_clean),
        ) && launch.after(LaunchReply::Session { result: Err(error), millis }) == moved_to(
            launch,
            Phase::Finished(Err(Unlaunched::Database(error@))),
        ),
        launch.phase is Recovery ==> launch.request() == Task::Recover(launch.phase->Recovery_0)
            && launch.after(LaunchReply::Recovered { result: Ok(intact), millis }) == noted(
            launch,
            "recovery"@,
            millis,
            if intact {
                "ok"@
            } else {
                "integrity-failed"@
            },
            Phase::Assessment,
        ) && launch.after(LaunchReply::Recovered { result: Err(error), millis }) == moved_to(
            launch,
            Phase::Finished(Err(Unlaunched::Database(error@))),
        ),
{
}

/// The machine is assessed, the key is loaded where there is one, and what is
/// stored is reconciled; none of these can fail a launch.
pub proof fn law_nothing_after_recovery_fails_a_launch(
    launch: Launching,
    loaded: bool,
    millis: u128,
)
    ensures
        launch.phase is Assessment ==> launch.request() == Task::Assess && launch.after(
            LaunchReply::Assessed { millis },
        ) == noted(launch, "assessment"@, millis, "ok"@, Phase::MasterKey),
        launch.phase is MasterKey ==> ({
            let after = launch.after(LaunchReply::MasterKey { loaded, millis });
            &&& launch.request() == Task::LoadMasterKey
            &&& after.has_master_key == loaded
            &&& after.instance_id == launch.instance_id
            &&& after.schema_version == launch.schema_version
            &&& after.phase == Phase::Reconcile
            &&& after.timings == launch.timings.with(
                "master_key"@,
                millis as int,
                if loaded {
                    "ok"@
                } else {
                    "error"@
                },
            )
        }),
        launch.phase is Reconcile ==> launch.request() == Task::Reconcile && launch.after(
            LaunchReply::Reconciled { millis },
        ) == noted(
            launch,
            "reconcile"@,
            millis,
            "ok"@,
            Phase::Finished(Ok::<(), Unlaunched>(())),
        ),
        launch.phase is Finished ==> launch.request() == Task::Nothing,
{
}

/// Whether a reply answers what is asked in a phase.
pub open spec fn answers(phase: Phase, reply: LaunchReply) -> bool {
    match phase {
        Phase::Directories => reply is Directories,
        Phase::Open => reply is Opened,
        Phase::Assert => reply is Asserted,
        Phase::Version => reply is SchemaVersion,
        Phase::Session => reply is Session,
        Phase::Recovery(was_clean) => reply is Recovered,
        Phase::Assessment => reply is Assessed,
        Phase::MasterKey => reply is MasterKey,
        Phase::Reconcile => reply is Reconciled,
        Phase::Finished(result) => false,
    }
}

/// A reply to something that was not asked changes nothing.
pub proof fn law_a_launch_listens_to_what_it_asked(launch: Launching, reply: LaunchReply)
    requires
        !answers(launch.phase, reply),
    ensures
        launch.after(reply) == launch,
{
}

/// A stop is nine steps, each once and in this order: whatever writes on its
/// own ends first, then the hold on the machine, the bots and the projects, and
/// the database last.
pub proof fn law_a_stop_takes_every_step_once()
    ensures
        super::stopping().len() == 9,
        super::stopping()[0] == ShutdownStep::AbortSampler,
        super::stopping()[1] == ShutdownStep::AbortReconciler,
        super::stopping()[2] == ShutdownStep::AbortPower,
        super::stopping()[3] == ShutdownStep::ReleasePower,
        super::stopping()[4] == ShutdownStep::StopBots,
        super::stopping()[5] == ShutdownStep::StopProjects,
        super::stopping()[6] == ShutdownStep::RecordCleanShutdown,
        super::stopping()[7] == ShutdownStep::Checkpoint,
        super::stopping()[8] == ShutdownStep::CloseDatabase,
{
}

/// A failed launch says what failed, in its own words.
pub proof fn law_a_failed_launch_says_why(error: RuntimeError)
    ensures
        match error {
            RuntimeError::Directories(words) => error@ == Unlaunched::Directories(words@)
                && error@.text() == "could not prepare directories: "@ + words@,
            RuntimeError::Database(words) => error@ == Unlaunched::Database(words@)
                && error@.text() == "database error: "@ + words@,
        },
{
}

/// An identifier is thirty-two hexadecimal digits in lower case, of which the
/// thirteenth and the seventeenth say what kind it is.
pub proof fn law_an_identifier_is_plain(id: Seq<char>)
    requires
        super::random_id(id),
    ensures
        id.len() == 32,
        forall|i: int|
            0 <= i < 32 ==> '0' <= #[trigger] id[i] <= '9' || 'a' <= id[i] <= 'f',
        id[12] == '4',
        id[16] == '8' || id[16] == '9' || id[16] == 'a' || id[16] == 'b',
{
    assert forall|i: int| 0 <= i < 32 implies '0' <= #[trigger] id[i] <= '9' || 'a' <= id[i]
        <= 'f' by {
        assert(super::hex_digit(id[i]));
    }
}

/// A task says what it is about.
pub proof fn law_a_task_says_what_it_is_about(task: LaunchTask)
    ensures
        match task {
            LaunchTask::EnsureDirectories => task@ == Task::EnsureDirectories,
            LaunchTask::OpenDatabase => task@ == Task::OpenDatabase,
            LaunchTask::AssertSchema => task@ == Task::AssertSchema,
            LaunchTask::ReadSchemaVersion => task@ == Task::ReadSchemaVersion,
            LaunchTask::BeginSession { schema_version, instance_id, address } => task@
                == Task::BeginSession(schema_version, instance_id@, address@),
            LaunchTask::Recover { was_clean } => task@ == Task::Recover(was_clean),
            LaunchTask::Assess => task@ == Task::Assess,
            LaunchTask::LoadMasterKey => task@ == Task::LoadMasterKey,
            LaunchTask::Reconcile => task@ == Task::Reconcile,
            LaunchTask::Nothing => task@ == Task::Nothing,
        },
{
}

/// The machine is sampled and what is stored is reconciled every two seconds,
/// and its power is reconsidered every five.
pub proof fn law_the_interface_is_two_seconds_behind()
    ensures
        super::USAGE_SAMPLE_INTERVAL_S == 2,
        super::RECONCILE_INTERVAL_S == 2,
        super::POWER_INTERVAL_S == 5,
{
}

} // verus!
