//! The rows the database keeps of a project, and the words it keeps them in.

use vstd::prelude::*;

verus! {

/// One row of `project_processes`.
#[derive(Debug, PartialEq, Eq)]
pub struct ProcessRecord {
    pub id: String,
    pub project_id: String,
    pub name: String,
    pub start_order: i64,
    pub command: String,
    /// Relative to the project directory.
    pub working_dir: String,
    pub install_command: Option<String>,
    pub build_command: Option<String>,
    /// `NONE` where no check is configured.
    pub health_check_type: String,
    pub health_check_target: Option<String>,
    pub health_interval_s: i64,
    pub health_timeout_s: i64,
    pub health_retries: i64,
    pub health_start_period_s: i64,
    pub status: String,
    pub pid: Option<i64>,
    pub exit_code: Option<i64>,
    pub failure_reason: Option<String>,
    pub started_at: Option<String>,
    pub restart_count: i64,
}

impl ProcessRecord {
    /// Whether the row configures a health check.
    pub open spec fn checked(self) -> bool {
        self.health_check_type@ != "NONE"@
    }

    pub fn has_health_check(&self) -> (checked: bool)
        ensures
            checked == self.checked(),
    {
        !crate::text::same(self.health_check_type.as_str(), "NONE")
    }
}

/// One row of `project_ports`, as far as a start reads it.
#[derive(Debug, PartialEq, Eq)]
pub struct PortRecord {
    /// The process the port belongs to. `None` is a port of the project's,
    /// from before the process set existed.
    pub process_id: Option<String>,
    pub host_port: Option<i64>,
    pub is_primary: bool,
}

/// One row of `project_runtimes`, as far as a start reads it.
#[derive(Debug, PartialEq, Eq)]
pub struct RuntimeRecord {
    pub runtime: String,
    pub publish_dir: Option<String>,
}

impl RuntimeRecord {
    /// Whether the project is a static site, which this application serves
    /// itself.
    pub open spec fn serves_itself(self) -> bool {
        self.runtime@ == "STATIC"@
    }

    pub fn is_static(&self) -> (found: bool)
        ensures
            found == self.serves_itself(),
    {
        crate::text::same(self.runtime.as_str(), "STATIC")
    }
}

/// One row of `projects`, as far as the lifecycle reads it.
#[derive(Debug, PartialEq, Eq)]
pub struct ProjectRecord {
    pub id: String,
    pub slug: String,
    pub display_name: String,
    pub directory: String,
    pub restart_policy: String,
    pub memory_limit_mb: i64,
    pub status: String,
}

impl Clone for ProjectRecord {
    fn clone(&self) -> (copy: ProjectRecord)
        ensures
            copy == *self,
    {
        ProjectRecord {
            id: self.id.clone(),
            slug: self.slug.clone(),
            display_name: self.display_name.clone(),
            directory: self.directory.clone(),
            restart_policy: self.restart_policy.clone(),
            memory_limit_mb: self.memory_limit_mb,
            status: self.status.clone(),
        }
    }
}

impl ProjectRecord {
    /// Whether a process that crashes is started again. `NO` is the only word
    /// that means "leave it alone".
    pub open spec fn restarts(self) -> bool {
        self.restart_policy@ != "NO"@
    }

    pub fn restarts_on_crash(&self) -> (restarts: bool)
        ensures
            restarts == self.restarts(),
    {
        !crate::text::same(self.restart_policy.as_str(), "NO")
    }
}

/// Where a project is, as `projects.status` records it.
#[derive(Debug, Clone, Copy, PartialEq, Eq, Structural)]
pub enum ProjectStatus {
    Running,
    /// Its installs and builds are running.
    Building,
    Starting,
    Restarting,
    Stopping,
    Stopped,
    Crashed,
    Failed,
}

impl ProjectStatus {
    pub open spec fn word(self) -> Seq<char> {
        match self {
            ProjectStatus::Running => "RUNNING"@,
            ProjectStatus::Building => "BUILDING"@,
            ProjectStatus::Starting => "STARTING"@,
            ProjectStatus::Restarting => "RESTARTING"@,
            ProjectStatus::Stopping => "STOPPING"@,
            ProjectStatus::Stopped => "STOPPED"@,
            ProjectStatus::Crashed => "CRASHED"@,
            ProjectStatus::Failed => "FAILED"@,
        }
    }

    pub fn as_str(self) -> (word: &'static str)
        ensures
            word@ == self.word(),
    {
        match self {
            ProjectStatus::Running => "RUNNING",
            ProjectStatus::Building => "BUILDING",
            ProjectStatus::Starting => "STARTING",
            ProjectStatus::Restarting => "RESTARTING",
            ProjectStatus::Stopping => "STOPPING",
            ProjectStatus::Stopped => "STOPPED",
            ProjectStatus::Crashed => "CRASHED",
            ProjectStatus::Failed => "FAILED",
        }
    }
}

/// What the user wants of a project, whatever it is doing.
#[derive(Debug, Clone, Copy, PartialEq, Eq, Structural)]
pub enum DesiredState {
    Running,
    Stopped,
}

impl DesiredState {
    pub open spec fn word(self) -> Seq<char> {
        match self {
            DesiredState::Running => "RUNNING"@,
            DesiredState::Stopped => "STOPPED"@,
        }
    }

    pub fn as_str(self) -> (word: &'static str)
        ensures
            word@ == self.word(),
    {
        match self {
            DesiredState::Running => "RUNNING",
            DesiredState::Stopped => "STOPPED",
        }
    }
}

/// What a project's health checks say, as `projects.health` records it.
#[derive(Debug, Clone, Copy, PartialEq, Eq, Structural)]
pub enum HealthState {
    /// The project has no health check.
    Unchecked,
    Healthy,
    Unhealthy,
}

/// A status is written in the column by its own name.
pub proof fn law_a_recorded_status_is_its_name(status: ProjectStatus)
    ensures
        status is Running ==> status.word() == "RUNNING"@,
        status is Building ==> status.word() == "BUILDING"@,
        status is Starting ==> status.word() == "STARTING"@,
        status is Restarting ==> status.word() == "RESTARTING"@,
        status is Stopping ==> status.word() == "STOPPING"@,
        status is Stopped ==> status.word() == "STOPPED"@,
        status is Crashed ==> status.word() == "CRASHED"@,
        status is Failed ==> status.word() == "FAILED"@,
{
}

/// What the user wants is written by its own name.
pub proof fn law_a_desired_state_is_its_name(desired: DesiredState)
    ensures
        desired is Running ==> desired.word() == "RUNNING"@,
        desired is Stopped ==> desired.word() == "STOPPED"@,
{
}

/// What a row says by a word: a check is configured unless it says `NONE`, a
/// project is a static site where it says `STATIC`, and a process is tried
/// again unless it says `NO`.
pub proof fn law_a_row_says_it_by_a_word(
    process: ProcessRecord,
    runtime: RuntimeRecord,
    project: ProjectRecord,
)
    ensures
        process.checked() <==> process.health_check_type@ != "NONE"@,
        runtime.serves_itself() <==> runtime.runtime@ == "STATIC"@,
        project.restarts() <==> project.restart_policy@ != "NO"@,
{
}

} // verus!
