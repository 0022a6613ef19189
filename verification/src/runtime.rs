//! Application lifecycle: start, run, stop.
//!
//! The order of a launch matters and is not arbitrary:
//!
//! 1. Directories, so everything below has somewhere to write.
//! 2. Database and migrations, before anything reads state.
//! 3. Recovery, before the interface opens: the user must not be shown a
//!    half-repaired world.
//! 4. A cheap machine snapshot, so new projects have resource defaults.
//!
//! Whatever can hang runs after the window exists.

pub mod laws;

use crate::startup::StartupDiagnostics;
use vstd::prelude::*;

verus! {

/// How often the machine's memory and CPU are sampled, in seconds.
///
/// Often enough that the number on screen is not visibly stale, and rare enough
/// that walking the process table is not itself a load worth measuring.
pub const USAGE_SAMPLE_INTERVAL_S: u64 = 2;

/// How often stored project statuses are reconciled against what the
/// supervisors are actually observing, in seconds. This is the interval a user
/// experiences as "how long until the interface tells me the truth".
pub const RECONCILE_INTERVAL_S: u64 = 2;

/// How often the machine's power behaviour is reconsidered, in seconds. It
/// drives a moving average measured in minutes.
pub const POWER_INTERVAL_S: u64 = 5;

#[derive(Debug, PartialEq, Eq)]
pub enum RuntimeError {
    Directories(String),
    Database(String),
}

/// Why a launch failed, as a mathematical value.
pub enum Unlaunched {
    Directories(Seq<char>),
    Database(Seq<char>),
}

impl View for RuntimeError {
    type V = Unlaunched;

    open spec fn view(&self) -> Unlaunched {
        match self {
            RuntimeError::Directories(error) => Unlaunched::Directories(error@),
            RuntimeError::Database(error) => Unlaunched::Database(error@),
        }
    }
}

impl Unlaunched {
    /// The words the user is shown.
    pub open spec fn text(self) -> Seq<char> {
        match self {
            Unlaunched::Directories(error) => "could not prepare directories: "@ + error,
            Unlaunched::Database(error) => "database error: "@ + error,
        }
    }
}

impl RuntimeError {
    /// The words the user is shown.
    pub fn message(&self) -> (text: String)
        ensures
            text@ == self@.text(),
    {
        match self {
            RuntimeError::Directories(error) => "could not prepare directories: ".to_owned().concat(
                error.as_str(),
            ),
            RuntimeError::Database(error) => "database error: ".to_owned().concat(error.as_str()),
        }
    }
}

/// Whether a character is a lower-case hexadecimal digit.
pub open spec fn hex_digit(c: char) -> bool {
    '0' <= c <= '9' || 'a' <= c <= 'f'
}

/// Whether a text is a random identifier in its plain form: thirty-two
/// hexadecimal digits, with the version and the variant where they belong.
pub open spec fn random_id(id: Seq<char>) -> bool {
    &&& id.len() == 32
    &&& forall|i: int| 0 <= i < 32 ==> hex_digit(#[trigger] id[i])
    &&& id[12] == '4'
    &&& id[16] == '8' || id[16] == '9' || id[16] == 'a' || id[16] == 'b'
}

/// A random identifier in its plain form.
///
/// `uuid::Uuid::new_v4`, written out by `simple` and `to_string`: thirty-two
/// lower-case hexadecimal digits, of which the thirteenth is the version, four,
/// and the seventeenth holds the variant. Everything else is chance, and
/// nothing is claimed of it: in particular not that two identifiers differ.
/// It panics on a machine whose operating system has no random bytes to give.
#[verifier::external_body]
fn fresh_id() -> (id: String)
    ensures
        random_id(id@),
{
    uuid::Uuid::new_v4().simple().to_string()
}

/// An identifier for this instance of the application.
pub fn new_instance_id() -> (id: String)
    ensures
        random_id(id@),
{
    fresh_id()
}

/// One thing to be done for a launch.
#[derive(Debug)]
pub enum LaunchTask {
    EnsureDirectories,
    OpenDatabase,
    AssertSchema,
    ReadSchemaVersion,
    /// Whether the previous stop was clean decides how aggressive recovery is,
    /// so the session is begun before anything else touches application state.
    BeginSession { schema_version: i64, instance_id: String, address: &'static str },
    Recover { was_clean: bool },
    /// What this machine can take, from what can be read without spawning
    /// anything.
    Assess,
    LoadMasterKey,
    /// What the stored statuses say against what runs, which is nothing yet.
    Reconcile,
    /// Nothing is left to do.
    Nothing,
}

/// What came of it, and how long the stage it ends took.
#[derive(Debug)]
pub enum LaunchReply {
    Directories { result: Result<(), String>, millis: u128 },
    Opened(Result<(), String>),
    Asserted(Result<(), String>),
    SchemaVersion { result: Result<i64, String>, millis: u128 },
    Session { result: Result<bool, String>, millis: u128 },
    Recovered { result: Result<bool, String>, millis: u128 },
    Assessed { millis: u128 },
    MasterKey { loaded: bool, millis: u128 },
    Reconciled { millis: u128 },
}

/// A launch task as a mathematical value.
pub enum Task {
    EnsureDirectories,
    OpenDatabase,
    AssertSchema,
    ReadSchemaVersion,
    BeginSession(i64, Seq<char>, Seq<char>),
    Recover(bool),
    Assess,
    LoadMasterKey,
    Reconcile,
    Nothing,
}

impl View for LaunchTask {
    type V = Task;

    open spec fn view(&self) -> Task {
        match self {
            LaunchTask::EnsureDirectories => Task::EnsureDirectories,
            LaunchTask::OpenDatabase => Task::OpenDatabase,
            LaunchTask::AssertSchema => Task::AssertSchema,
            LaunchTask::ReadSchemaVersion => Task::ReadSchemaVersion,
            LaunchTask::BeginSession { schema_version, instance_id, address } => {
                Task::BeginSession(*schema_version, instance_id@, address@)
            },
            LaunchTask::Recover { was_clean } => Task::Recover(*was_clean),
            LaunchTask::Assess => Task::Assess,
            LaunchTask::LoadMasterKey => Task::LoadMasterKey,
            LaunchTask::Reconcile => Task::Reconcile,
            LaunchTask::Nothing => Task::Nothing,
        }
    }
}

#[derive(Debug)]
enum Stage {
    Directories,
    Open,
    Assert,
    Version,
    Session,
    Recovery(bool),
    Assessment,
    MasterKey,
    Reconcile,
    Finished(Result<(), RuntimeError>),
}

/// Where a launch is, as a mathematical value.
pub enum Phase {
    Directories,
    Open,
    Assert,
    Version,
    Session,
    Recovery(bool),
    Assessment,
    MasterKey,
    Reconcile,
    Finished(Result<(), Unlaunched>),
}

/// What a finished launch came to, as a mathematical value.
pub open spec fn came_to(result: Result<(), RuntimeError>) -> Result<(), Unlaunched> {
    match result {
        Ok(()) => Ok(()),
        Err(error) => Err(error@),
    }
}

impl View for Stage {
    type V = Phase;

    closed spec fn view(&self) -> Phase {
        match self {
            Stage::Directories => Phase::Directories,
            Stage::Open => Phase::Open,
            Stage::Assert => Phase::Assert,
            Stage::Version => Phase::Version,
            Stage::Session => Phase::Session,
            Stage::Recovery(was_clean) => Phase::Recovery(*was_clean),
            Stage::Assessment => Phase::Assessment,
            Stage::MasterKey => Phase::MasterKey,
            Stage::Reconcile => Phase::Reconcile,
            Stage::Finished(result) => Phase::Finished(came_to(*result)),
        }
    }
}

/// A launch under way, as a mathematical value.
pub struct Launching {
    pub instance_id: Seq<char>,
    pub schema_version: i64,
    pub timings: crate::startup::Timings,
    pub has_master_key: bool,
    pub phase: Phase,
}

impl Launching {
    pub open spec fn at(self, phase: Phase) -> Launching {
        Launching { phase, ..self }
    }

    pub open spec fn failed(self, failure: Unlaunched) -> Launching {
        self.at(Phase::Finished(Err(failure)))
    }

    /// The launch with a stage recorded.
    pub open spec fn timed(self, name: Seq<char>, millis: int, outcome: Seq<char>) -> Launching {
        Launching { timings: self.timings.with(name, millis, outcome), ..self }
    }

    pub open spec fn request(self) -> Task {
        match self.phase {
            Phase::Directories => Task::EnsureDirectories,
            Phase::Open => Task::OpenDatabase,
            Phase::Assert => Task::AssertSchema,
            Phase::Version => Task::ReadSchemaVersion,
            // There is no socket: the address describes where this instance
            // runs, because a support log that says so is worth having.
            Phase::Session => Task::BeginSession(
                self.schema_version,
                self.instance_id,
                "in-process"@,
            ),
            Phase::Recovery(was_clean) => Task::Recover(was_clean),
            Phase::Assessment => Task::Assess,
            Phase::MasterKey => Task::LoadMasterKey,
            Phase::Reconcile => Task::Reconcile,
            Phase::Finished(result) => Task::Nothing,
        }
    }

    pub open spec fn after(self, reply: LaunchReply) -> Launching {
        match (self.phase, reply) {
            (Phase::Directories, LaunchReply::Directories { result, millis }) => match result {
                Ok(()) => self.timed("directories"@, millis as int, "ok"@).at(Phase::Open),
                Err(error) => self.failed(Unlaunched::Directories(error@)),
            },
            (Phase::Open, LaunchReply::Opened(result)) => match result {
                Ok(()) => self.at(Phase::Assert),
                Err(error) => self.failed(Unlaunched::Database(error@)),
            },
            (Phase::Assert, LaunchReply::Asserted(result)) => match result {
                Ok(()) => self.at(Phase::Version),
                Err(error) => self.failed(Unlaunched::Database(error@)),
            },
            (Phase::Version, LaunchReply::SchemaVersion { result, millis }) => match result {
                Ok(version) => Launching { schema_version: version, ..self }.timed(
                    "database"@,
                    millis as int,
                    "ok"@,
                ).at(Phase::Session),
                Err(error) => self.failed(Unlaunched::Database(error@)),
            },
            (Phase::Session, LaunchReply::Session { result, millis }) => match result {
                Ok(was_clean) => self.timed("session"@, millis as int, "ok"@).at(
                    Phase::Recovery(was_clean),
                ),
                Err(error) => self.failed(Unlaunched::Database(error@)),
            },
            (Phase::Recovery(was_clean), LaunchReply::Recovered { result, millis }) => match result {
                Ok(intact) => self.timed(
                    "recovery"@,
                    millis as int,
                    if intact {
                        "ok"@
                    } else {
                        "integrity-failed"@
                    },
                ).at(Phase::Assessment),
                Err(error) => self.failed(Unlaunched::Database(error@)),
            },
            (Phase::Assessment, LaunchReply::Assessed { millis }) => self.timed(
                "assessment"@,
                millis as int,
                "ok"@,
            ).at(Phase::MasterKey),
            // A machine whose keychain cannot be reached still runs; it just
            // cannot hold secrets.
            (Phase::MasterKey, LaunchReply::MasterKey { loaded, millis }) => Launching {
                has_master_key: loaded,
                ..self
            }.timed(
                "master_key"@,
                millis as int,
                if loaded {
                    "ok"@
                } else {
                    "error"@
                },
            ).at(Phase::Reconcile),
            (Phase::Reconcile, LaunchReply::Reconciled { millis }) => self.timed(
                "reconcile"@,
                millis as int,
                "ok"@,
            ).at(Phase::Finished(Ok(()))),
            _ => self,
        }
    }
}

/// The application core, from its launch on.
#[derive(Debug)]
pub struct Runtime {
    instance_id: String,
    schema_version: i64,
    diagnostics: StartupDiagnostics,
    has_master_key: bool,
    stage: Stage,
}

impl View for Runtime {
    type V = Launching;

    closed spec fn view(&self) -> Launching {
        Launching {
            instance_id: self.instance_id@,
            schema_version: self.schema_version,
            timings: self.diagnostics@,
            has_master_key: self.has_master_key,
            phase: self.stage@,
        }
    }
}

impl Runtime {
    /// A launch of an instance, with nothing done yet.
    pub fn new(instance_id: String) -> (run: Runtime)
        ensures
            run@ == (Launching {
                instance_id: instance_id@,
                schema_version: 0,
                timings: crate::startup::Timings { stages: Seq::empty(), total_ms: 0 },
                has_master_key: false,
                phase: Phase::Directories,
            }),
    {
        Runtime {
            instance_id,
            schema_version: 0,
            diagnostics: StartupDiagnostics::default(),
            has_master_key: false,
            stage: Stage::Directories,
        }
    }

    /// Prepare everything the user interface will need: a launch of a fresh
    /// instance.
    pub fn start() -> (run: Runtime)
        ensures
            random_id(run@.instance_id),
            run@ == (Launching {
                instance_id: run@.instance_id,
                schema_version: 0,
                timings: crate::startup::Timings { stages: Seq::empty(), total_ms: 0 },
                has_master_key: false,
                phase: Phase::Directories,
            }),
    {
        Runtime::new(new_instance_id())
    }

    fn at(self, stage: Stage) -> (run: Runtime)
        ensures
            run@ == self@.at(stage@),
    {
        Runtime { stage, ..self }
    }

    fn failed(self, error: RuntimeError) -> (run: Runtime)
        ensures
            run@ == self@.failed(error@),
    {
        self.at(Stage::Finished(Err(error)))
    }

    fn timed(self, name: &str, millis: u128, outcome: &str) -> (run: Runtime)
        ensures
            run@ == self@.timed(name@, millis as int, outcome@),
    {
        let mut run = self;
        run.diagnostics.record(name, millis, outcome);
        run
    }

    /// What is to be done next.
    pub fn request(&self) -> (task: LaunchTask)
        ensures
            task@ == self@.request(),
    {
        match &self.stage {
            Stage::Directories => LaunchTask::EnsureDirectories,
            Stage::Open => LaunchTask::OpenDatabase,
            Stage::Assert => LaunchTask::AssertSchema,
            Stage::Version => LaunchTask::ReadSchemaVersion,
            Stage::Session => LaunchTask::BeginSession {
                schema_version: self.schema_version,
                instance_id: self.instance_id.clone(),
                address: "in-process",
            },
            Stage::Recovery(was_clean) => LaunchTask::Recover { was_clean: *was_clean },
            Stage::Assessment => LaunchTask::Assess,
            Stage::MasterKey => LaunchTask::LoadMasterKey,
            Stage::Reconcile => LaunchTask::Reconcile,
            Stage::Finished(_) => LaunchTask::Nothing,
        }
    }

    /// Take what came of it, and decide what follows.
    pub fn step(self, reply: LaunchReply) -> (next: Runtime)
        ensures
            next@ == self@.after(reply),
    {
        let Runtime { instance_id, schema_version, diagnostics, has_master_key, stage } = self;
        let run = Runtime {
            instance_id,
            schema_version,
            diagnostics,
            has_master_key,
            stage: Stage::Directories,
        };
        match stage {
            Stage::Directories => match reply {
                LaunchReply::Directories { result: Ok(_), millis } => run.timed(
                    "directories",
                    millis,
                    "ok",
                ).at(Stage::Open),
                LaunchReply::Directories { result: Err(error), .. } => run.failed(
                    RuntimeError::Directories(error),
                ),
                _ => run.at(Stage::Directories),
            },
            Stage::Open => match reply {
                LaunchReply::Opened(Ok(_)) => run.at(Stage::Assert),
                LaunchReply::Opened(Err(error)) => run.failed(RuntimeError::Database(error)),
                _ => run.at(Stage::Open),
            },
            Stage::Assert => match reply {
                LaunchReply::Asserted(Ok(_)) => run.at(Stage::Version),
                LaunchReply::Asserted(Err(error)) => run.failed(RuntimeError::Database(error)),
                _ => run.at(Stage::Assert),
            },
            Stage::Version => match reply {
                LaunchReply::SchemaVersion { result: Ok(version), millis } => Runtime {
                    schema_version: version,
                    ..run
                }.timed("database", millis, "ok").at(Stage::Session),
                LaunchReply::SchemaVersion { result: Err(error), .. } => run.failed(
                    RuntimeError::Database(error),
                ),
                _ => run.at(Stage::Version),
            },
            Stage::Session => match reply {
                LaunchReply::Session { result: Ok(was_clean), millis } => run.timed(
                    "session",
                    millis,
                    "ok",
                ).at(Stage::Recovery(was_clean)),
                LaunchReply::Session { result: Err(error), .. } => run.failed(
                    RuntimeError::Database(error),
                ),
                _ => run.at(Stage::Session),
            },
            Stage::Recovery(was_clean) => match reply {
                LaunchReply::Recovered { result: Ok(intact), millis } => run.timed(
                    "recovery",
                    millis,
                    if intact {
                        "ok"
                    } else {
                        "integrity-failed"
                    },
                ).at(Stage::Assessment),
                LaunchReply::Recovered { result: Err(error), .. } => run.failed(
                    RuntimeError::Database(error),
                ),
                _ => run.at(Stage::Recovery(was_clean)),
            },
            Stage::Assessment => match reply {
                LaunchReply::Assessed { millis } => run.timed("assessment", millis, "ok").at(
                    Stage::MasterKey,
                ),
                _ => run.at(Stage::Assessment),
            },
            Stage::MasterKey => match reply {
                LaunchReply::MasterKey { loaded, millis } => Runtime {
                    has_master_key: loaded,
                    ..run
                }.timed(
                    "master_key",
                    millis,
                    if loaded {
                        "ok"
                    } else {
                        "error"
                    },
                ).at(Stage::Reconcile),
                _ => run.at(Stage::MasterKey),
            },
            Stage::Reconcile => match reply {
                LaunchReply::Reconciled { millis } => run.timed("reconcile", millis, "ok").at(
                    Stage::Finished(Ok(())),
                ),
                _ => run.at(Stage::Reconcile),
            },
            Stage::Finished(result) => run.at(Stage::Finished(result)),
        }
    }

    /// Whether nothing is left to do.
    pub fn is_finished(&self) -> (finished: bool)
        ensures
            finished == (self@.phase is Finished),
    {
        match &self.stage {
            Stage::Finished(_) => true,
            _ => false,
        }
    }

    /// Whether the launch succeeded: the database is open and migrated,
    /// recovery has run, and the window can open.
    pub fn is_launched(&self) -> (launched: bool)
        ensures
            launched == (self@.phase == Phase::Finished(Ok(()))),
    {
        match &self.stage {
            Stage::Finished(Ok(_)) => true,
            _ => false,
        }
    }

    /// What each startup stage cost so far.
    pub fn startup_diagnostics(&self) -> (diagnostics: &StartupDiagnostics)
        ensures
            diagnostics@ == self@.timings,
    {
        &self.diagnostics
    }

    pub fn instance_id(&self) -> (id: &str)
        ensures
            id@ == self@.instance_id,
    {
        self.instance_id.as_str()
    }

    /// What the launch came to, with what each stage cost.
    pub fn outcome(self) -> (outcome: (Option<Result<(), RuntimeError>>, StartupDiagnostics))
        ensures
            outcome.0 is Some == (self@.phase is Finished),
            outcome.0 matches Some(result) ==> self@.phase == Phase::Finished(came_to(result)),
            outcome.1@ == self@.timings,
    {
        let Runtime { diagnostics, stage, .. } = self;
        match stage {
            Stage::Finished(result) => (Some(result), diagnostics),
            _ => (None, diagnostics),
        }
    }
}

/// What follows once the window exists: the heartbeat that was tried is
/// recorded. A failure there is a logged state, never a reason to close the
/// window that is already on screen.
pub fn run_optional_startup(diagnostics: &mut StartupDiagnostics, recorded: bool, millis: u128)
    ensures
        final(diagnostics)@ == old(diagnostics)@.with(
            "heartbeat"@,
            millis as int,
            if recorded {
                "ok"@
            } else {
                "error"@
            },
        ),
{
    if recorded {
        diagnostics.record("heartbeat", millis, "ok");
    } else {
        diagnostics.record("heartbeat", millis, "error");
    }
}

/// Where everything is kept.
#[derive(Debug, PartialEq, Eq)]
pub enum Layout {
    /// Under one directory, for development.
    Rooted(String),
    /// Where this platform keeps such things.
    Platform,
}

/// Resolve the directory layout, honouring a `data_dir` override.
pub fn resolve_paths(data_dir: Option<String>) -> (layout: Layout)
    ensures
        layout == match data_dir {
            Some(root) => Layout::Rooted(root),
            None => Layout::Platform,
        },
{
    match data_dir {
        Some(root) => Layout::Rooted(root),
        None => Layout::Platform,
    }
}

/// One step of stopping cleanly.
#[derive(Debug, Clone, Copy, PartialEq, Eq, Structural)]
pub enum ShutdownStep {
    AbortSampler,
    AbortReconciler,
    AbortPower,
    ReleasePower,
    StopBots,
    StopProjects,
    RecordCleanShutdown,
    Checkpoint,
    CloseDatabase,
}

/// The steps of stopping cleanly, in their order.
pub open spec fn stopping() -> Seq<ShutdownStep> {
    seq![
        ShutdownStep::AbortSampler,
        ShutdownStep::AbortReconciler,
        ShutdownStep::AbortPower,
        ShutdownStep::ReleasePower,
        ShutdownStep::StopBots,
        ShutdownStep::StopProjects,
        ShutdownStep::RecordCleanShutdown,
        ShutdownStep::Checkpoint,
        ShutdownStep::CloseDatabase,
    ]
}

impl Runtime {
    /// Stop cleanly: the steps, in their order.
    ///
    /// Every project stops. Stopping them deliberately is the difference
    /// between a clean stop with `STOPPED` recorded and a process that vanishes
    /// leaving the database claiming it runs.
    pub fn shutdown(self) -> (steps: Vec<ShutdownStep>)
        ensures
            steps@ == stopping(),
    {
        let mut steps: Vec<ShutdownStep> = Vec::new();
        steps.push(ShutdownStep::AbortSampler);
        // Before the projects are stopped, so it cannot overwrite the statuses
        // the stop is about to write with the ones it read a moment earlier.
        steps.push(ShutdownStep::AbortReconciler);
        // Before the hold is released, so a tick already in flight cannot
        // re-take it a moment after it is given up.
        steps.push(ShutdownStep::AbortPower);
        // Explicitly rather than left to the drop: a machine that will not
        // sleep after the application has closed is the worst bug there could
        // be.
        steps.push(ShutdownStep::ReleasePower);
        // Politely, so that no bot shows as online after the application has
        // gone.
        steps.push(ShutdownStep::StopBots);
        steps.push(ShutdownStep::StopProjects);
        steps.push(ShutdownStep::RecordCleanShutdown);
        steps.push(ShutdownStep::Checkpoint);
        steps.push(ShutdownStep::CloseDatabase);
        assert(steps@ =~= stopping());
        steps
    }
}

/// Whether one step comes before another in a stop.
pub open spec fn comes_before(first: ShutdownStep, second: ShutdownStep) -> bool {
    exists|i: int, j: int|
        0 <= i < j < stopping().len() && #[trigger] stopping()[i] == first
            && #[trigger] stopping()[j] == second
}

/// Nothing can undo what a stop does: the reconciler ends before the projects
/// are stopped, the power manager before the hold is released, and everything
/// that writes is over before the database closes.
pub proof fn law_a_stop_is_in_order()
    ensures
        comes_before(ShutdownStep::AbortReconciler, ShutdownStep::StopProjects),
        comes_before(ShutdownStep::AbortPower, ShutdownStep::ReleasePower),
        comes_before(ShutdownStep::StopProjects, ShutdownStep::RecordCleanShutdown),
        comes_before(ShutdownStep::RecordCleanShutdown, ShutdownStep::Checkpoint),
        comes_before(ShutdownStep::Checkpoint, ShutdownStep::CloseDatabase),
        stopping().last() == ShutdownStep::CloseDatabase,
{
    let steps = stopping();
    assert(steps[1] == ShutdownStep::AbortReconciler && steps[5] == ShutdownStep::StopProjects);
    assert(steps[2] == ShutdownStep::AbortPower && steps[3] == ShutdownStep::ReleasePower);
    assert(steps[6] == ShutdownStep::RecordCleanShutdown && steps[7] == ShutdownStep::Checkpoint);
    assert(steps[8] == ShutdownStep::CloseDatabase);
}

/// How far along a launch is in a phase.
pub open spec fn rank(phase: Phase) -> int {
    match phase {
        Phase::Directories => 0,
        Phase::Open => 1,
        Phase::Assert => 2,
        Phase::Version => 3,
        Phase::Session => 4,
        Phase::Recovery(was_clean) => 5,
        Phase::Assessment => 6,
        Phase::MasterKey => 7,
        Phase::Reconcile => 8,
        Phase::Finished(result) => 9,
    }
}

/// The names of the stages that are over in a phase.
pub open spec fn stages_before(phase: Phase) -> Seq<Seq<char>> {
    let all = seq![
        "directories"@,
        "database"@,
        "session"@,
        "recovery"@,
        "assessment"@,
        "master_key"@,
        "reconcile"@,
    ];
    match phase {
        Phase::Directories => all.take(0),
        Phase::Open => all.take(1),
        Phase::Assert => all.take(1),
        Phase::Version => all.take(1),
        Phase::Session => all.take(2),
        Phase::Recovery(was_clean) => all.take(3),
        Phase::Assessment => all.take(4),
        Phase::MasterKey => all.take(5),
        Phase::Reconcile => all.take(6),
        Phase::Finished(result) => all,
    }
}

/// The names of recorded stages.
pub open spec fn names(timings: crate::startup::Timings) -> Seq<Seq<char>> {
    timings.stages.map_values(|stage: crate::startup::Timed| stage.name)
}

/// A launch goes through its stages in order: each reply that moves it moves it
/// to the next one or ends it, and every stage that is over was recorded, once
/// and under its name.
pub proof fn law_a_launch_goes_stage_by_stage(launch: Launching, reply: LaunchReply)
    requires
        names(launch.timings) == stages_before(launch.phase),
        !(launch.phase is Finished),
    ensures
        launch.after(reply) == launch || rank(launch.after(reply).phase) == rank(launch.phase) + 1
            || launch.after(reply).phase matches Phase::Finished(Err(_)),
        launch.after(reply).phase matches Phase::Finished(Err(_)) || names(
            launch.after(reply).timings,
        ) == stages_before(launch.after(reply).phase),
{
    let next = launch.after(reply);
    if !(next.phase matches Phase::Finished(Err(_))) && next.timings != launch.timings {
        assert(names(next.timings) =~= names(launch.timings).push(
            next.timings.stages.last().name,
        ));
        assert(names(next.timings) =~= stages_before(next.phase));
    }
}

/// A database that did not come through the last stop intact is not a failed
/// launch: the damage is recorded, and the launch goes on.
pub proof fn law_a_launch_survives_a_damaged_database(launch: Launching, millis: u128)
    requires
        launch.phase is Recovery,
    ensures
        launch.after(LaunchReply::Recovered { result: Ok(false), millis }).phase is Assessment,
        launch.after(
            LaunchReply::Recovered { result: Ok(false), millis },
        ).timings.stages.last().outcome == "integrity-failed"@,
{
}

/// A missing key is not a failed launch.
pub proof fn law_a_launch_survives_a_missing_key(launch: Launching, loaded: bool, millis: u128)
    requires
        launch.phase is MasterKey,
    ensures
        launch.after(LaunchReply::MasterKey { loaded, millis }).phase is Reconcile,
        launch.after(LaunchReply::MasterKey { loaded, millis }).has_master_key == loaded,
{
}

/// Only the directories and the database can fail a launch, each under its own
/// name, and a launch that failed asks for nothing more.
pub proof fn law_a_failed_launch_is_over(launch: Launching, reply: LaunchReply)
    requires
        launch.after(reply).phase matches Phase::Finished(Err(_)),
        !(launch.phase is Finished),
    ensures
        launch.after(reply).request() == Task::Nothing,
        launch.after(reply).timings == launch.timings,
        launch.after(reply).phase->Finished_0->Err_0 is Directories <==> launch.phase is Directories,
        rank(launch.phase) <= 5,
{
}

} // verus!
