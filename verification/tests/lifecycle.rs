//! Starting and stopping a project.

use project_host::lifecycle::quit::{Farewell, Parting};
use project_host::lifecycle::run::{Admission, Answer, Chore, LifecycleRun};
use project_host::lifecycle::usage::{wanted_bytes, RunningProject};
use project_host::lifecycle::{
    admit_project, host_projects_running, is_running, kill, restart, restart_process,
    running_projects, start, start_forcing, stop, stop_host_projects, Conflict, LifecycleError,
    Shortfall,
};
use project_host::orchestrator::observed::{HostStatus, Observed};
use project_host::orchestrator::registry::{ProcessRegistry, RunningProcess};
use project_host::records::{DesiredState, HealthState, ProjectRecord, ProjectStatus};
use project_host::runtime_plan::Runtime;
use project_host::starter::{scaffold, starter_files};

const ALL_RUNTIMES: [Runtime; 13] = [
    Runtime::NodeJs,
    Runtime::TypeScript,
    Runtime::Bun,
    Runtime::Deno,
    Runtime::Python,
    Runtime::Go,
    Runtime::Rust,
    Runtime::Java,
    Runtime::Php,
    Runtime::Ruby,
    Runtime::DotNet,
    Runtime::Static,
    Runtime::Polyglot,
];

fn project(id: &str, status: &str) -> ProjectRecord {
    ProjectRecord {
        id: id.to_string(),
        slug: "shop".to_string(),
        display_name: format!("The {id}"),
        directory: "/projects/shop".to_string(),
        restart_policy: "NO".to_string(),
        memory_limit_mb: 512,
        status: status.to_string(),
    }
}

fn up(name: &str, handle: u64) -> RunningProcess {
    RunningProcess {
        process_id: format!("prc_{name}"),
        name: name.to_string(),
        handle,
    }
}

/// A directory, as the files in it.
fn write_missing(directory: &mut Vec<(String, String)>, runtime: &str) {
    let present: Vec<String> = directory.iter().map(|(path, _)| path.clone()).collect();
    for (path, contents) in scaffold(runtime, &present) {
        directory.push((path.to_string(), contents.to_string()));
    }
}

/// Every runtime gets something to run, and none of them gets a
/// `Dockerfile`.
#[test]
fn the_scaffold_writes_starter_files_and_never_a_dockerfile() {
    for runtime in ALL_RUNTIMES {
        let mut directory = Vec::new();
        write_missing(&mut directory, runtime.as_str());

        assert!(
            !directory.iter().any(|(path, _)| path == "Dockerfile"),
            "{} was given a Dockerfile",
            runtime.as_str()
        );

        // Polyglot is the one runtime with nothing sensible to scaffold:
        // it is by definition a project that already has files.
        if runtime != Runtime::Polyglot {
            let written = directory.len();
            assert!(
                written > 0,
                "{} was scaffolded with nothing at all",
                runtime.as_str()
            );
        }
    }
}

/// Once a project exists, its files belong to the user.
#[test]
fn a_scaffold_never_overwrites_an_edited_file() {
    let mut directory = Vec::new();
    write_missing(&mut directory, "NODEJS");

    let index = directory
        .iter()
        .position(|(path, _)| path == "index.js")
        .expect("index.js");
    directory[index].1 = "// mine\n".to_string();

    write_missing(&mut directory, "NODEJS");

    assert_eq!(
        directory[index].1, "// mine\n",
        "the scaffold clobbered a file the user had edited"
    );
}

#[test]
fn a_scaffold_fills_in_only_what_is_missing() {
    assert_eq!(
        scaffold("NODEJS", &vec!["index.js".to_string()])
            .iter()
            .map(|(path, _)| *path)
            .collect::<Vec<_>>(),
        ["package.json"]
    );
    assert_eq!(starter_files("POLYGLOT"), []);
    assert_eq!(starter_files("COBOL"), []);
    assert_eq!(
        starter_files("GO"),
        [
            (
                "main.go",
                "package main\n\nimport \"fmt\"\n\nfunc main() {\n\tfmt.Println(\"Hello from Panel Platform\")\n}\n"
            ),
            ("go.mod", "module project\n\ngo 1.23\n"),
        ]
    );
}

fn full() -> Shortfall {
    Shortfall {
        headroom_bytes: 0,
        explanation: "0 MB are free and 512 MB are needed".to_string(),
    }
}

fn running() -> Observed {
    Observed {
        status: ProjectStatus::Running,
        health: Some(HealthState::Unchecked),
        exit_code: None,
        failure_reason: None,
    }
}

/// Drive an operation, telling what it did.
fn drive(
    mut run: LifecycleRun,
    admission: fn() -> Admission,
    started: fn() -> Result<Observed, LifecycleError>,
) -> (Vec<String>, Result<Option<String>, LifecycleError>) {
    let mut told = Vec::new();
    for _ in 0..50 {
        if run.is_finished() {
            break;
        }
        let answer = match run.request() {
            Chore::FindProject { project_id } => {
                Answer::Project(Ok(Some(project(&project_id, "STOPPED"))))
            }
            Chore::Admit { project } => {
                told.push(format!("admit {}", wanted_bytes(&project)));
                Answer::Admission(admission())
            }
            Chore::SetDesired { desired, .. } => {
                told.push(format!("want {}", desired.as_str()));
                Answer::Written(Ok(()))
            }
            Chore::SetStatus { status, health, .. } => {
                told.push(format!("status {} {}", status.as_str(), health.is_some()));
                Answer::Written(Ok(()))
            }
            Chore::StopProject { .. } => {
                told.push("stop".to_string());
                Answer::Halted
            }
            Chore::KillProject { .. } => {
                told.push("kill".to_string());
                Answer::Halted
            }
            Chore::StartProject { context } => {
                told.push(format!("start in {}", context.directory));
                Answer::Started(started())
            }
            Chore::RestartProcess { name, .. } => {
                told.push(format!("restart {name}"));
                Answer::Restarted(Ok(()))
            }
            Chore::RecordStopped { exit_code, .. } => {
                told.push(format!("stopped {exit_code:?}"));
                Answer::Written(Ok(()))
            }
            Chore::Nothing => break,
        };
        run = run.step(answer);
    }
    (told, run.outcome().expect("an operation ends"))
}

fn allow() -> Admission {
    Admission::Allow
}

fn refuse() -> Admission {
    Admission::Refuse(full())
}

#[test]
fn a_start_writes_the_intent_before_it_runs_anything() {
    let (told, outcome) = drive(start("prj_1"), allow, || Ok(running()));
    assert_eq!(
        told,
        [
            "admit 536870912",
            "want RUNNING",
            "status STARTING false",
            "start in /projects/shop",
            "status RUNNING true",
        ]
    );
    assert_eq!(outcome, Ok(Some("RUNNING".to_string())));
}

#[test]
fn a_refused_start_changes_nothing() {
    let (told, outcome) = drive(start("prj_1"), refuse, || Ok(running()));
    assert_eq!(told, ["admit 536870912"]);
    let error = outcome.expect_err("refused");
    assert_eq!(error.message(), "0 MB are free and 512 MB are needed");
    assert_eq!(error, LifecycleError::NotEnoughMemory(full()));
}

#[test]
fn forcing_asks_nobody() {
    let (told, outcome) = drive(start_forcing("prj_1", true), refuse, || Ok(running()));
    assert_eq!(told[0], "want RUNNING");
    assert_eq!(outcome, Ok(Some("RUNNING".to_string())));
}

#[test]
fn a_failed_start_is_recorded_and_reported() {
    let (told, outcome) = drive(start("prj_1"), allow, || {
        Err(LifecycleError::Host("npm exited 1".to_string()))
    });
    assert_eq!(told.last().map(String::as_str), Some("status FAILED false"));
    assert_eq!(
        outcome,
        Err(LifecycleError::Host("npm exited 1".to_string()))
    );
}

#[test]
fn a_requested_stop_is_recorded_as_clean() {
    let (told, outcome) = drive(stop("prj_1"), allow, || Ok(running()));
    assert_eq!(
        told,
        [
            "want STOPPED",
            "status STOPPING false",
            "stop",
            "stopped Some(0)"
        ]
    );
    assert_eq!(outcome, Ok(None));
    let (told, _) = drive(kill("prj_1"), allow, || Ok(running()));
    assert!(told.contains(&"kill".to_string()));
}

#[test]
fn a_restart_stops_first_and_then_starts() {
    let (told, outcome) = drive(restart("prj_1"), allow, || Ok(running()));
    let stopped = told.iter().position(|step| step == "stop").expect("stop");
    let started = told
        .iter()
        .position(|step| step.starts_with("start in"))
        .expect("start");
    assert!(stopped < started);
    assert!(told.contains(&"status RESTARTING false".to_string()));
    assert!(outcome.is_ok());
}

#[test]
fn one_process_is_restarted_without_touching_the_project() {
    let (told, outcome) = drive(restart_process("prj_1", "web"), allow, || Ok(running()));
    assert_eq!(told, ["restart web"]);
    assert_eq!(outcome, Ok(None));
}

#[test]
fn a_project_that_is_not_there_is_named() {
    let run = start("prj_9").step(Answer::Project(Ok(None)));
    assert_eq!(
        run.outcome().expect("over").expect_err("unknown").message(),
        "no project with id prj_9"
    );
    let run = stop("prj_9").step(Answer::Project(Err("locked".to_string())));
    assert_eq!(
        run.outcome().expect("over").expect_err("broken").message(),
        "database error: locked"
    );
}

#[test]
fn every_error_says_what_it_means() {
    let said = [
        LifecycleError::Scaffold("no disk".to_string()).message(),
        LifecycleError::Build("tsc".to_string()).message(),
        LifecycleError::Command("blank".to_string()).message(),
        LifecycleError::PortConflict(Conflict {
            explanation: "port 80 is taken".to_string(),
        })
        .message(),
        LifecycleError::NoProcesses("prj_1".to_string()).message(),
        LifecycleError::NoSuchProcess {
            project: "prj_1".to_string(),
            process: "web".to_string(),
        }
        .message(),
    ];
    assert_eq!(
        said,
        [
            "could not prepare the project directory: no disk",
            "the build failed: tsc",
            "blank",
            "port 80 is taken",
            "project `prj_1` has no processes to run",
            "project `prj_1` has no process named `web`",
        ]
    );
}

#[test]
fn quitting_with_nothing_running_does_nothing() {
    let run = stop_host_projects(Vec::new());
    assert!(run.is_finished());
    assert!(matches!(run.request(), Parting::Nothing));
    assert_eq!(run.stopped(), Vec::<String>::new());
}

#[test]
fn quitting_stops_what_runs_and_passes_over_what_is_down() {
    let mut run = stop_host_projects(vec![
        ("prj_a".to_string(), vec![up("api", 1), up("web", 2)]),
        ("prj_b".to_string(), vec![up("main", 3)]),
    ]);
    let mut told = Vec::new();
    for _ in 0..20 {
        if run.is_finished() {
            break;
        }
        let farewell = match run.request() {
            Parting::Look { handles } => Farewell::Seen(
                handles
                    .into_iter()
                    .map(|handle| {
                        if handle == 2 {
                            (handle, HostStatus::Running)
                        } else {
                            (handle, HostStatus::Stopped)
                        }
                    })
                    .collect(),
            ),
            Parting::Stop { handle } => {
                told.push(format!("stop {handle}"));
                Farewell::Done
            }
            Parting::RecordStopped {
                project_id,
                exit_code,
            } => {
                told.push(format!("{project_id} {exit_code:?}"));
                Farewell::Done
            }
            Parting::Nothing => break,
        };
        run = run.step(farewell);
    }
    assert_eq!(told, ["stop 2", "stop 1", "prj_a Some(0)"]);
    assert_eq!(run.stopped(), ["prj_a"]);
}

#[test]
fn what_is_counted_before_quitting_is_what_quitting_stops() {
    let mut registry = ProcessRegistry::new();
    registry.set("prj_a", vec![up("api", 1), up("web", 2)]);
    registry.set("prj_b", vec![up("main", 3)]);
    registry.set("prj_c", vec![up("main", 4)]);
    let seen = vec![
        (1, HostStatus::Crashed),
        (2, HostStatus::Running),
        (3, HostStatus::Stopped),
        (4, HostStatus::Running),
    ];
    let counted = host_projects_running(&registry, &seen);
    let mut run = stop_host_projects(registry.all());
    for _ in 0..20 {
        run = match run.request() {
            Parting::Look { .. } => run.step(Farewell::Seen(seen.clone())),
            _ => run.step(Farewell::Done),
        };
    }
    assert!(run.is_finished());
    let stopped = run.stopped();
    assert_eq!(stopped, ["prj_a", "prj_c"]);
    assert_eq!(counted, stopped.len());
}

#[test]
fn a_project_on_its_way_counts_as_running() {
    for status in [
        "RUNNING",
        "STARTING",
        "RESTARTING",
        "STOPPING",
        "BUILDING",
        "UNHEALTHY",
    ] {
        assert!(is_running(status), "{status}");
    }
    for status in ["STOPPED", "CRASHED", "FAILED", "running"] {
        assert!(!is_running(status), "{status}");
    }
    assert_eq!(DesiredState::Running.as_str(), "RUNNING");
}

#[test]
fn what_a_project_costs_is_what_its_processes_use() {
    let mut registry = ProcessRegistry::new();
    registry.set("prj_a", vec![up("api", 1), up("web", 2)]);
    let records = vec![
        project("prj_a", "RUNNING"),
        project("prj_b", "STOPPED"),
        project("prj_c", "STARTING"),
    ];
    assert_eq!(
        running_projects(&records, &registry, &vec![(2, 30), (1, 12), (7, 99)]),
        [
            RunningProject {
                project_id: "prj_a".to_string(),
                display_name: "The prj_a".to_string(),
                memory_bytes: 42,
            },
            RunningProject {
                project_id: "prj_c".to_string(),
                display_name: "The prj_c".to_string(),
                memory_bytes: 536_870_912,
            },
        ]
    );
}

#[test]
fn a_limit_below_nothing_wants_nothing() {
    let mut record = project("prj_1", "STOPPED");
    record.memory_limit_mb = -5;
    assert_eq!(wanted_bytes(&record), 0);
    assert_eq!(admit_project(Admission::Allow), Ok(()));
    assert_eq!(
        admit_project(Admission::Refuse(full())),
        Err(LifecycleError::NotEnoughMemory(full()))
    );
}
