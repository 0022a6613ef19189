//! Starting and stopping a project.

pub mod course;
pub mod quit;
pub mod run;
pub mod usage;

pub use crate::starter::scaffold;
pub use quit::stop_host_projects;
pub use run::{kill, restart, restart_process, start, start_forcing, stop};
pub use usage::{admit_project, host_projects_running, is_running, running_projects};

use crate::text::join_strings;
use vstd::prelude::*;

verus! {

/// What a machine is short of when it cannot take another project.
#[derive(Debug, PartialEq, Eq)]
pub struct Shortfall {
    /// What the machine could still spare.
    pub headroom_bytes: u64,
    /// The numbers, in the words the user should see.
    pub explanation: String,
}

/// Who holds the port a project binds.
#[derive(Debug, PartialEq, Eq)]
pub struct Conflict {
    /// The port and its holder, in the words the user should see.
    pub explanation: String,
}

#[derive(Debug, PartialEq, Eq)]
pub enum LifecycleError {
    Database(String),
    NoSuchProject(String),
    Scaffold(String),
    Build(String),
    /// The failure is reported before anything is spawned, so the message can
    /// name the runtime and the executables tried rather than being an
    /// operating-system error about a file that does not exist.
    ToolchainMissing { runtime: String, looked_for: Vec<String> },
    Host(String),
    Command(String),
    /// The machine cannot take another project.
    NotEnoughMemory(Shortfall),
    /// The port this project binds is already held.
    PortConflict(Conflict),
    /// A project with nothing to run. A configuration mistake rather than a
    /// failure, and refused by name: a start that succeeds having run nothing
    /// is the worst possible answer to it.
    NoProcesses(String),
    NoSuchProcess { project: String, process: String },
}

/// An error as a mathematical value.
pub enum Failure {
    Database(Seq<char>),
    NoSuchProject(Seq<char>),
    Scaffold(Seq<char>),
    Build(Seq<char>),
    ToolchainMissing(Seq<char>, Seq<Seq<char>>),
    Host(Seq<char>),
    Command(Seq<char>),
    NotEnoughMemory(u64, Seq<char>),
    PortConflict(Seq<char>),
    NoProcesses(Seq<char>),
    NoSuchProcess(Seq<char>, Seq<char>),
}

impl View for LifecycleError {
    type V = Failure;

    open spec fn view(&self) -> Failure {
        match self {
            LifecycleError::Database(error) => Failure::Database(error@),
            LifecycleError::NoSuchProject(project) => Failure::NoSuchProject(project@),
            LifecycleError::Scaffold(error) => Failure::Scaffold(error@),
            LifecycleError::Build(error) => Failure::Build(error@),
            LifecycleError::ToolchainMissing { runtime, looked_for } => Failure::ToolchainMissing(
                runtime@,
                crate::text::texts(looked_for@),
            ),
            LifecycleError::Host(error) => Failure::Host(error@),
            LifecycleError::Command(error) => Failure::Command(error@),
            LifecycleError::NotEnoughMemory(shortfall) => Failure::NotEnoughMemory(
                shortfall.headroom_bytes,
                shortfall.explanation@,
            ),
            LifecycleError::PortConflict(conflict) => Failure::PortConflict(conflict.explanation@),
            LifecycleError::NoProcesses(project) => Failure::NoProcesses(project@),
            LifecycleError::NoSuchProcess { project, process } => Failure::NoSuchProcess(
                project@,
                process@,
            ),
        }
    }
}

impl Failure {
    /// The words the user is shown.
    pub open spec fn text(self) -> Seq<char> {
        match self {
            Failure::Database(error) => "database error: "@ + error,
            Failure::NoSuchProject(project) => "no project with id "@ + project,
            Failure::Scaffold(error) => "could not prepare the project directory: "@ + error,
            Failure::Build(error) => "the build failed: "@ + error,
            Failure::ToolchainMissing(runtime, looked_for) => runtime
                + " is not installed on this machine; looked for "@ + crate::text::joined(
                looked_for,
                ", "@,
            ),
            Failure::Host(error) => error,
            Failure::Command(error) => error,
            Failure::NotEnoughMemory(headroom, explanation) => explanation,
            Failure::PortConflict(explanation) => explanation,
            Failure::NoProcesses(project) => "project `"@ + project + "` has no processes to run"@,
            Failure::NoSuchProcess(project, process) => "project `"@ + project
                + "` has no process named `"@ + process + "`"@,
        }
    }
}

/// Two texts, one after the other.
fn after(first: &str, rest: &str) -> (whole: String)
    ensures
        whole@ == first@ + rest@,
{
    first.to_owned().concat(rest)
}

impl LifecycleError {
    /// The words the user is shown.
    pub fn message(&self) -> (text: String)
        ensures
            text@ == self@.text(),
    {
        match self {
            LifecycleError::Database(error) => after("database error: ", error.as_str()),
            LifecycleError::NoSuchProject(project) => after(
                "no project with id ",
                project.as_str(),
            ),
            LifecycleError::Scaffold(error) => after(
                "could not prepare the project directory: ",
                error.as_str(),
            ),
            LifecycleError::Build(error) => after("the build failed: ", error.as_str()),
            LifecycleError::ToolchainMissing { runtime, looked_for } => {
                let tried = join_strings(looked_for, ", ");
                after(
                    runtime.as_str(),
                    " is not installed on this machine; looked for ",
                ).concat(tried.as_str())
            },
            LifecycleError::Host(error) => error.clone(),
            LifecycleError::Command(error) => error.clone(),
            LifecycleError::NotEnoughMemory(shortfall) => shortfall.explanation.clone(),
            LifecycleError::PortConflict(conflict) => conflict.explanation.clone(),
            LifecycleError::NoProcesses(project) => after("project `", project.as_str()).concat(
                "` has no processes to run",
            ),
            LifecycleError::NoSuchProcess { project, process } => after(
                "project `",
                project.as_str(),
            ).concat("` has no process named `").concat(process.as_str()).concat("`"),
        }
    }
}

} // verus!
