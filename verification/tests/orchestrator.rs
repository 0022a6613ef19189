//! Starting, watching and restarting the processes of a project.

use project_host::lifecycle::{Conflict, LifecycleError};
use project_host::orchestration::{ProcessState, ProjectStatus as MachineStatus};
use project_host::orchestrator::command::{
    joined, static_command, Argument, Environment, ProcessCommand, ProjectPath, SERVE_STATIC_FLAG,
};
use project_host::orchestrator::exchange::{Reply, Request};
use project_host::orchestrator::observed::{
    aggregate, await_health, health_of, observe, observed_for, observed_from, Health, HostObserved,
    HostStatus, Verdict,
};
use project_host::orchestrator::registry::{any_up, ProcessRegistry, RunningProcess};
use project_host::orchestrator::settings::{
    health_deadline_s, health_policy, port_by_process, resolve_toolchain, today, Probed, Toolchain,
};
use project_host::orchestrator::{stop_order, Orchestrator, StartContext};
use project_host::ordered::TextMap;
use project_host::records::{
    HealthState, PortRecord, ProcessRecord, ProjectRecord, ProjectStatus, RuntimeRecord,
};
use std::path::{Path, PathBuf};

fn process(name: &str, working_dir: &str) -> ProcessRecord {
    ProcessRecord {
        id: format!("prc_{name}"),
        project_id: "prj_1".to_string(),
        name: name.to_string(),
        start_order: 0,
        command: "node index.js".to_string(),
        working_dir: working_dir.to_string(),
        install_command: None,
        build_command: None,
        health_check_type: "NONE".to_string(),
        health_check_target: None,
        health_interval_s: 30,
        health_timeout_s: 5,
        health_retries: 3,
        health_start_period_s: 20,
        status: "STOPPED".to_string(),
        pid: None,
        exit_code: None,
        failure_reason: None,
        started_at: None,
        restart_count: 0,
    }
}

/// The path that a directory of a project stands for.
fn whole(path: &ProjectPath) -> PathBuf {
    let mut whole = PathBuf::from(&path.base);
    for part in &path.parts {
        whole.push(part);
    }
    whole
}

fn shop() -> ProjectPath {
    joined("/projects/shop", ".")
}

#[test]
fn a_dot_working_directory_is_the_project_itself() {
    let root = Path::new("/projects/shop");
    assert_eq!(whole(&joined("/projects/shop", ".")), root);
    assert_eq!(whole(&joined("/projects/shop", "")), root);
    assert_eq!(whole(&joined("/projects/shop", "   ")), root);
}

#[test]
fn a_relative_working_directory_lands_inside_the_project() {
    let root = Path::new("/projects/shop");
    assert_eq!(
        whole(&joined("/projects/shop", "packages/api")),
        root.join("packages/api")
    );
}

/// The one place a stored value becomes a served directory, and the whole
/// security boundary of a static project.
#[test]
fn a_publish_directory_cannot_climb_out_of_the_project() {
    let environment = Environment::empty();

    for hostile in [
        "..",
        "../..",
        "../../etc",
        "a/../..",
        "..\\..",
        "C:\\Windows",
    ] {
        let refused = static_command(
            Ok("/opt/panel"),
            &shop(),
            Some(hostile),
            Some(3000),
            &environment,
        );
        assert!(refused.is_err(), "`{hostile}` was accepted");
    }
}

#[test]
fn a_publish_directory_inside_the_project_is_served() {
    let environment = Environment::empty();
    let command = static_command(
        Ok("/opt/panel"),
        &shop(),
        Some("dist"),
        Some(3000),
        &environment,
    )
    .expect("dist is inside the project");

    assert!(command.args.iter().any(|arg| match arg {
        Argument::Text(text) => text.ends_with("dist"),
        Argument::Path(path) => whole(path).ends_with("dist"),
    }));
}

#[test]
fn a_process_without_a_health_check_has_no_policy() {
    assert!(health_policy(&process("main", "."), Some(3000)).is_none());
}

#[test]
fn a_process_with_a_health_check_has_one() {
    let mut record = process("api", ".");
    record.health_check_type = "HTTP".to_string();
    record.health_check_target = Some("/health".to_string());

    assert!(health_policy(&record, Some(3000)).is_some());
}

/// A project whose processes are all up is running; anything else is not.
#[test]
fn an_empty_process_set_is_stopped() {
    assert_eq!(aggregate(&vec![]), MachineStatus::STOPPED);
    assert_eq!(
        observed_for(MachineStatus::STOPPED, &vec![], &vec![]).status,
        ProjectStatus::Stopped
    );
}

#[test]
fn a_static_site_is_served_by_this_application_on_its_port() {
    let mut environment = Environment::empty();
    environment
        .values
        .insert("PORT".to_string(), "1".to_string());
    environment
        .values
        .insert("API_URL".to_string(), "http://x".to_string());
    let command = static_command(
        Ok("/opt/panel"),
        &joined("/projects/shop", "web"),
        Some("./out\\site"),
        Some(3000),
        &environment,
    )
    .expect("served");

    assert_eq!(command.program, "/opt/panel");
    assert_eq!(
        command.args,
        vec![
            Argument::Text(SERVE_STATIC_FLAG.to_string()),
            Argument::Path(ProjectPath {
                base: "/projects/shop".to_string(),
                parts: vec!["web".to_string(), "out".to_string(), "site".to_string()],
            }),
            Argument::Text("--port".to_string()),
            Argument::Text("3000".to_string()),
        ]
    );
    assert_eq!(whole(&command.cwd), Path::new("/projects/shop/web"));
    assert_eq!(command.env.get("PORT").map(String::as_str), Some("3000"));
    assert_eq!(
        command.env.get("API_URL").map(String::as_str),
        Some("http://x")
    );
}

#[test]
fn a_refused_directory_says_why() {
    let environment = Environment::empty();
    assert_eq!(
        static_command(Ok("/opt/panel"), &shop(), Some("a/.."), None, &environment)
            .expect_err("climbs")
            .message(),
        "could not prepare the project directory: the publish directory climbs out of the project"
    );
    assert_eq!(
        static_command(Ok("/opt/panel"), &shop(), Some("C:/x"), None, &environment)
            .expect_err("absolute")
            .message(),
        "could not prepare the project directory: the publish directory is an absolute path"
    );
    assert_eq!(
        static_command(Err("gone"), &shop(), None, None, &environment)
            .expect_err("nowhere")
            .message(),
        "could not prepare the project directory: this application could not find its own executable, so it cannot serve a static site: gone"
    );
}

#[test]
fn a_policy_keeps_within_its_bounds() {
    let mut record = process("api", ".");
    record.health_check_type = "TCP".to_string();
    record.health_interval_s = 0;
    record.health_start_period_s = 9000;
    record.health_retries = 500;
    let policy = health_policy(&record, Some(80)).expect("a policy");
    assert_eq!(policy.check.kind, "TCP");
    assert_eq!(policy.check.port, Some(80));
    assert_eq!(policy.interval_s, 1);
    assert_eq!(policy.start_period_s, 3600);
    assert_eq!(health_deadline_s(&record), 3700);
    assert_eq!(health_deadline_s(&process("api", ".")), 110);
}

#[test]
fn a_date_is_the_first_ten_bytes() {
    assert_eq!(today("2026-07-01T12:00:00Z"), "2026-07-01");
    assert_eq!(today("soon"), "unknown");
}

#[test]
fn a_process_has_its_own_port_or_the_projects() {
    let processes = vec![process("api", "."), process("web", ".")];
    let ports = vec![
        PortRecord {
            process_id: None,
            host_port: Some(4000),
            is_primary: false,
        },
        PortRecord {
            process_id: Some("prc_web".to_string()),
            host_port: Some(5000),
            is_primary: false,
        },
        PortRecord {
            process_id: None,
            host_port: Some(3000),
            is_primary: true,
        },
    ];
    assert_eq!(
        port_by_process(&ports, &processes),
        vec![Some(3000), Some(5000)]
    );
    assert_eq!(port_by_process(&vec![], &processes), vec![None, None]);
}

#[test]
fn a_missing_toolchain_is_named_with_what_was_looked_for() {
    assert_eq!(
        resolve_toolchain("NODEJS", Probed::Found("/usr/bin/node".to_string())),
        Ok(Toolchain::Found("/usr/bin/node".to_string()))
    );
    assert_eq!(
        resolve_toolchain("STATIC", Probed::NotRequired),
        Ok(Toolchain::NotRequired)
    );
    assert_eq!(
        resolve_toolchain(
            "NODEJS",
            Probed::Missing {
                looked_for: vec!["node".to_string(), "nodejs".to_string()],
            }
        )
        .expect_err("missing")
        .message(),
        "NODEJS is not installed on this machine; looked for node, nodejs"
    );
}

fn seen(status: HostStatus, health: Health) -> HostObserved {
    HostObserved {
        status,
        health,
        exit_code: None,
        failure_reason: None,
    }
}

fn up(name: &str, handle: u64) -> RunningProcess {
    RunningProcess {
        process_id: format!("prc_{name}"),
        name: name.to_string(),
        handle,
    }
}

#[test]
fn one_process_in_trouble_speaks_for_the_project() {
    let mut died = seen(HostStatus::Crashed, Health::Failing("refused".to_string()));
    died.exit_code = Some(3);
    died.failure_reason = Some("exited with code 3".to_string());
    let running = vec![up("api", 1), up("web", 2)];
    let observed = observe(
        &running,
        &vec![seen(HostStatus::Running, Health::Passing), died],
    )
    .expect("something runs");
    assert_eq!(observed.status, ProjectStatus::Crashed);
    assert_eq!(observed.health, Some(HealthState::Unhealthy));
    assert_eq!(observed.exit_code, Some(3));
    assert_eq!(
        observed.failure_reason.as_deref(),
        Some("web: exited with code 3")
    );
    assert_eq!(observe(&vec![], &vec![]), None);
}

#[test]
fn a_project_is_as_healthy_as_its_checks() {
    assert_eq!(
        health_of(&vec![seen(HostStatus::Running, Health::Unasked)]),
        HealthState::Unchecked
    );
    assert_eq!(
        health_of(&vec![
            seen(HostStatus::Running, Health::Unasked),
            seen(HostStatus::Running, Health::Passing),
        ]),
        HealthState::Healthy
    );
    assert_eq!(
        aggregate(&vec![
            seen(HostStatus::Running, Health::Passing),
            seen(HostStatus::Stopped, Health::Unasked),
        ]),
        MachineStatus::STOPPED
    );
    assert_eq!(
        observed_from(&seen(HostStatus::Failed, Health::Unasked)).status,
        ProjectStatus::Failed
    );
}

#[test]
fn the_worst_report_is_the_status_of_the_project() {
    let all = [
        HostStatus::Running,
        HostStatus::Stopped,
        HostStatus::Crashed,
        HostStatus::Failed,
    ];
    for first in all {
        for second in all {
            let expected = if first == HostStatus::Failed || second == HostStatus::Failed {
                MachineStatus::FAILED
            } else if first == HostStatus::Crashed || second == HostStatus::Crashed {
                MachineStatus::CRASHED
            } else if first == HostStatus::Running && second == HostStatus::Running {
                MachineStatus::RUNNING
            } else {
                MachineStatus::STOPPED
            };
            let reports = vec![seen(first, Health::Unasked), seen(second, Health::Unasked)];
            assert_eq!(aggregate(&reports), expected, "{first:?} {second:?}");
        }
    }
}

#[test]
fn only_a_check_that_passed_passes() {
    let record = process("api", ".");
    assert_eq!(
        await_health(&Health::Passing, HostStatus::Running, 0, &record),
        Verdict::Passed
    );
    assert_eq!(
        await_health(&Health::Unasked, HostStatus::Running, 109_999, &record),
        Verdict::Waiting
    );
    assert_eq!(
        await_health(&Health::Unasked, HostStatus::Running, 110_000, &record),
        Verdict::GaveUp
    );
    assert_eq!(
        await_health(
            &Health::Failing("no".to_string()),
            HostStatus::Stopped,
            0,
            &record
        ),
        Verdict::GaveUp
    );
}

#[test]
fn a_registry_keeps_its_projects_apart() {
    let mut registry = ProcessRegistry::new();
    registry.set("prj_b", vec![up("api", 1), up("web", 2)]);
    registry.set("prj_a", vec![up("main", 3)]);

    assert_eq!(registry.handle("prj_b"), Some(1));
    assert_eq!(registry.handle_named("prj_b", "web"), Some(2));
    assert_eq!(registry.handle_named("prj_b", "main"), None);
    assert!(registry.replace_handle("prj_b", "web", 9));
    assert!(!registry.replace_handle("prj_b", "jobs", 9));
    assert_eq!(
        registry.processes("prj_b"),
        vec![up("api", 1), up("web", 9)]
    );
    let ids: Vec<String> = registry.all().into_iter().map(|(id, _)| id).collect();
    assert_eq!(ids, ["prj_a", "prj_b"]);
    let seen = vec![
        (1, HostStatus::Stopped),
        (9, HostStatus::Running),
        (3, HostStatus::Crashed),
    ];
    assert_eq!(registry.running(&seen), 1);
    assert!(any_up(&registry.processes("prj_b"), &seen));
    assert_eq!(
        registry.remove("prj_b"),
        vec![up("api", 1), up("web", 9)]
    );
    assert_eq!(registry.processes("prj_b"), vec![]);
    assert_eq!(registry.handle("prj_a"), Some(3));
}

fn project() -> ProjectRecord {
    ProjectRecord {
        id: "prj_1".to_string(),
        slug: "shop".to_string(),
        display_name: "Shop".to_string(),
        directory: "/projects/shop".to_string(),
        restart_policy: "NO".to_string(),
        memory_limit_mb: 512,
        status: "STOPPED".to_string(),
    }
}

fn context() -> StartContext {
    StartContext {
        project: project(),
        directory: "/projects/shop".to_string(),
    }
}

/// A machine that keeps count of what it is asked to do.
struct Fake {
    orchestrator: Orchestrator,
    processes: fn() -> Vec<ProcessRecord>,
    runtime: &'static str,
    /// The port is held by something else.
    port_held: bool,
    /// The status that cannot be written.
    unwritable: Option<ProjectStatus>,
    /// The step that fails.
    failing_step: Option<&'static str>,
    /// The command whose process does not survive.
    dying: Option<&'static str>,
    /// The command that cannot be made.
    unmakeable: Option<&'static str>,
    /// How often this application still finds its own executable.
    executables: u64,
    /// The command that cannot be spawned.
    unspawnable: Option<&'static str>,
    health: fn() -> Health,
    spawned: u64,
    dead: Vec<u64>,
    commands: Vec<(u64, String)>,
    /// The `PORT` each spawned process was given.
    ports: Vec<Option<String>>,
    told: Vec<String>,
    /// The reasons that were written with a status.
    reasons: Vec<String>,
}

fn fake(processes: fn() -> Vec<ProcessRecord>) -> Fake {
    Fake {
        orchestrator: Orchestrator::new(ProcessRegistry::new(), "/logs".to_string()),
        processes,
        runtime: "NODEJS",
        port_held: false,
        unwritable: None,
        failing_step: None,
        dying: None,
        unmakeable: None,
        executables: 100,
        unspawnable: None,
        health: || Health::Passing,
        spawned: 0,
        dead: Vec::new(),
        commands: Vec::new(),
        ports: Vec::new(),
        told: Vec::new(),
        reasons: Vec::new(),
    }
}

impl Fake {
    fn observed(&self, handle: u64) -> HostObserved {
        let command = self
            .commands
            .iter()
            .find(|(known, _)| *known == handle)
            .map(|(_, command)| command.as_str());
        if command.is_some() && command == self.dying {
            HostObserved {
                status: HostStatus::Failed,
                health: Health::Unasked,
                exit_code: Some(1),
                failure_reason: Some("exited with code 1".to_string()),
            }
        } else if self.dead.contains(&handle) {
            seen(HostStatus::Stopped, Health::Unasked)
        } else {
            seen(HostStatus::Running, (self.health)())
        }
    }

    fn perform(&mut self, request: Request) -> Reply {
        if let Some(reply) = self.orchestrator.answer(&request) {
            if let Request::Register { running, .. } = &request {
                self.told.push(format!("register {}", running.len()));
            }
            return reply;
        }
        match request {
            Request::ListProcesses { .. } => Reply::Processes(Ok((self.processes)())),
            Request::FindRuntime { .. } => Reply::Runtime(Ok(Some(RuntimeRecord {
                runtime: self.runtime.to_string(),
                publish_dir: Some("dist".to_string()),
            }))),
            Request::ListCandidates { .. } => Reply::Candidates(vec!["node".to_string()]),
            Request::Probe { .. } => Reply::Probed(Probed::Found("/usr/bin/node".to_string())),
            Request::Stop { handle } => {
                self.told.push(format!("stop {handle}"));
                self.dead.push(handle);
                Reply::Stopped(Ok(()))
            }
            Request::CheckPort { .. } => Reply::Port(if self.port_held {
                Err(Conflict {
                    explanation: "port 3000 is held by another program".to_string(),
                })
            } else {
                Ok(())
            }),
            Request::ResolveEnvironment { .. } => Reply::Environment(Ok(Environment::empty())),
            Request::ListPorts { .. } => Reply::Ports(Ok(vec![PortRecord {
                process_id: None,
                host_port: Some(3000),
                is_primary: true,
            }])),
            Request::BuildCommand {
                text,
                directory,
                port,
                ..
            } => {
                if self.unmakeable == Some(text.as_str()) {
                    return Reply::Command(Err(format!("`{text}` is not a command")));
                }
                let mut env = TextMap::new();
                if let Some(port) = port {
                    env.insert("PORT".to_string(), port.to_string());
                }
                Reply::Command(Ok(ProcessCommand {
                    program: text,
                    args: Vec::new(),
                    cwd: directory,
                    env,
                }))
            }
            Request::Announce { project_id, status } => {
                self.told.push(format!("{project_id} {}", status.as_str()));
                Reply::Recorded(if self.unwritable == Some(status) {
                    Err("locked".to_string())
                } else {
                    Ok(())
                })
            }
            Request::RunStep { phase, command } => {
                self.told.push(format!("{phase} {}", command.program));
                Reply::Stepped(if self.failing_step == Some(phase) {
                    Err(format!("{phase} exited 1"))
                } else {
                    Ok(())
                })
            }
            Request::RecordStatus {
                process_id,
                state,
                reason,
                ..
            } => {
                self.told.push(format!("{process_id} {}", state.as_str()));
                self.reasons.extend(reason);
                Reply::Done
            }
            Request::FindExecutable => {
                if self.executables == 0 {
                    return Reply::Executable(Err("gone".to_string()));
                }
                self.executables -= 1;
                Reply::Executable(Ok("/opt/panel".to_string()))
            }
            Request::Spawn { command, .. } => {
                self.told.push(format!("spawn {}", command.program));
                if self.unspawnable == Some(command.program.as_str()) {
                    return Reply::Spawned(Err("no such program".to_string()));
                }
                self.ports.push(command.env.get("PORT").cloned());
                self.spawned += 1;
                self.commands.push((self.spawned, command.program));
                Reply::Spawned(Ok(self.spawned))
            }
            Request::Observe { handle } => Reply::Observed(self.observed(handle)),
            Request::Poll { handle } => {
                let observed = self.observed(handle);
                Reply::Polled {
                    health: observed.health,
                    status: observed.status,
                    waited_ms: 10_000_000,
                }
            }
            Request::Sleep { .. } => Reply::Done,
            Request::RecordStarted { .. } => {
                self.told.push("started".to_string());
                Reply::Recorded(Ok(()))
            }
            Request::ObserveAll { handles } => Reply::Observations(
                handles.iter().map(|handle| self.observed(*handle)).collect(),
            ),
            Request::RecordObserved {
                process_id, state, ..
            } => {
                self.told.push(format!("{process_id} {}", state.as_str()));
                Reply::Done
            }
            Request::CountRestart { process_id } => {
                self.told.push(format!("count {process_id}"));
                Reply::Done
            }
            _ => Reply::Done,
        }
    }

    fn start(&mut self) -> Result<project_host::orchestrator::observed::Observed, LifecycleError> {
        let mut run = self.orchestrator.start(context());
        for _ in 0..200 {
            if run.is_finished() {
                break;
            }
            let reply = self.perform(run.request());
            run = run.step(reply);
        }
        run.outcome().expect("a start ends")
    }

    fn restart(&mut self, name: &str) -> Result<(), LifecycleError> {
        let mut run = self.orchestrator.restart_process(context(), name);
        for _ in 0..200 {
            if run.is_finished() {
                break;
            }
            let reply = self.perform(run.request());
            run = run.step(reply);
        }
        run.outcome().expect("a restart ends")
    }
}

fn commanded(name: &str, command: &str) -> ProcessRecord {
    let mut record = process(name, ".");
    record.command = command.to_string();
    record
}

fn two() -> Vec<ProcessRecord> {
    vec![commanded("api", "api"), commanded("web", "web")]
}

fn three() -> Vec<ProcessRecord> {
    let mut processes = two();
    processes.push(commanded("jobs", "jobs"));
    processes
}

fn gated() -> Vec<ProcessRecord> {
    let mut processes = two();
    processes[0].health_check_type = "HTTP".to_string();
    processes
}

fn prepared() -> Vec<ProcessRecord> {
    let mut processes = two();
    processes[0].install_command = Some("npm ci".to_string());
    processes[1].build_command = Some("npm run build".to_string());
    processes
}

#[test]
fn a_start_brings_every_process_up_in_order() {
    let mut host = fake(two);
    let observed = host.start().expect("it starts");
    assert_eq!(observed.status, ProjectStatus::Running);
    assert_eq!(observed.health, Some(HealthState::Healthy));
    assert_eq!(
        host.told,
        [
            "prc_api STARTING",
            "spawn api",
            "register 1",
            "prc_api RUNNING",
            "prc_web STARTING",
            "spawn web",
            "register 2",
            "prc_web RUNNING",
            "register 2",
            "started",
        ]
    );
    assert_eq!(host.orchestrator.registry().processes("prj_1").len(), 2);
}

#[test]
fn a_start_without_processes_is_refused() {
    let mut host = fake(Vec::new);
    assert_eq!(
        host.start(),
        Err(LifecycleError::NoProcesses("prj_1".to_string()))
    );
    assert!(host.told.is_empty());
}

#[test]
fn a_held_port_refuses_a_start_before_anything_runs() {
    let mut host = fake(prepared);
    host.port_held = true;
    let error = host.start().expect_err("the port is held");
    assert_eq!(error.message(), "port 3000 is held by another program");
    assert!(host.told.is_empty());
}

#[test]
fn everything_is_prepared_before_anything_is_spawned() {
    let mut host = fake(prepared);
    host.start().expect("it starts");
    assert_eq!(
        host.told[..5],
        [
            "prj_1 BUILDING",
            "install npm ci",
            "build npm run build",
            "prj_1 STARTING",
            "prc_api STARTING",
        ]
    );
}

#[test]
fn a_status_that_cannot_be_written_fails_the_start() {
    for (status, steps) in [(ProjectStatus::Building, 1), (ProjectStatus::Starting, 4)] {
        let mut host = fake(prepared);
        host.unwritable = Some(status);
        assert_eq!(
            host.start(),
            Err(LifecycleError::Database("locked".to_string()))
        );
        assert_eq!(host.told.len(), steps);
        assert_eq!(host.spawned, 0);
    }
}

#[test]
fn a_failed_step_spawns_nothing() {
    let mut host = fake(prepared);
    host.failing_step = Some("install");
    assert_eq!(
        host.start(),
        Err(LifecycleError::Host("install exited 1".to_string()))
    );
    assert_eq!(
        host.told,
        ["prj_1 BUILDING", "install npm ci", "prc_api FAILED"]
    );
}

#[test]
fn a_process_that_does_not_survive_takes_its_siblings_down() {
    let mut host = fake(two);
    host.dying = Some("web");
    let observed = host.start().expect("a start that failed is still reported");
    assert_eq!(observed.status, ProjectStatus::Failed);
    assert!(host.told.contains(&"stop 1".to_string()));
    assert!(!host.told.contains(&"started".to_string()));
}

#[test]
fn a_failure_stops_every_sibling_last_one_first() {
    let mut host = fake(three);
    host.dying = Some("jobs");
    let observed = host.start().expect("reported");
    assert_eq!(observed.status, ProjectStatus::Failed);
    let stops: Vec<&String> = host
        .told
        .iter()
        .filter(|step| step.starts_with("stop "))
        .collect();
    assert_eq!(stops, ["stop 2", "stop 1"]);
    assert_eq!(host.dead, [2, 1]);
}

#[test]
fn the_port_of_the_project_goes_to_its_first_process() {
    let mut host = fake(three);
    host.start().expect("it starts");
    assert_eq!(host.ports, [Some("3000".to_string()), None, None]);
}

#[test]
fn a_start_leaves_another_project_alone() {
    let mut host = fake(two);
    let mut registry = ProcessRegistry::new();
    registry.set("prj_2", vec![up("other", 77)]);
    host.orchestrator = Orchestrator::new(registry, "/logs".to_string());
    host.dying = Some("web");
    host.start().expect("reported");
    assert!(!host.dead.contains(&77));
    assert_eq!(
        host.orchestrator.registry().processes("prj_2"),
        vec![up("other", 77)]
    );
}

#[test]
fn the_first_process_that_is_down_gives_the_reason() {
    let mut host = fake(two);
    host.dying = Some("api");
    let observed = host.start().expect("reported");
    assert_eq!(observed.status, ProjectStatus::Failed);
    assert_eq!(observed.exit_code, Some(1));
    assert_eq!(
        observed.failure_reason.as_deref(),
        Some("api: exited with code 1")
    );
    assert!(!host.told.contains(&"spawn web".to_string()));
}

#[test]
fn a_process_that_cannot_be_spawned_leaves_nothing_running() {
    let mut host = fake(two);
    host.unspawnable = Some("web");
    assert_eq!(
        host.start(),
        Err(LifecycleError::Host("no such program".to_string()))
    );
    assert_eq!(host.dead.last(), Some(&1));
}

#[test]
fn a_process_whose_command_cannot_be_made_leaves_nothing_running() {
    let mut host = fake(three);
    host.unmakeable = Some("jobs");
    assert_eq!(
        host.start(),
        Err(LifecycleError::Command("`jobs` is not a command".to_string()))
    );
    assert_eq!(
        host.told,
        [
            "prc_api STARTING",
            "spawn api",
            "register 1",
            "prc_api RUNNING",
            "prc_web STARTING",
            "spawn web",
            "register 2",
            "prc_web RUNNING",
            "prc_jobs STARTING",
            "prc_jobs FAILED",
            "prc_web STOPPING",
            "stop 2",
            "prc_api STOPPING",
            "stop 1",
            "stop 2",
            "stop 1",
        ]
    );
    assert_eq!(host.reasons, ["`jobs` is not a command"]);
}

#[test]
fn a_first_command_that_cannot_be_made_stops_nothing() {
    let mut host = fake(two);
    host.unmakeable = Some("api");
    assert_eq!(
        host.start(),
        Err(LifecycleError::Command("`api` is not a command".to_string()))
    );
    assert_eq!(
        host.told,
        ["prc_api STARTING", "prc_api FAILED", "prc_web STOPPING"]
    );
    assert!(host.dead.is_empty());
}

#[test]
fn a_static_site_that_cannot_be_served_leaves_nothing_running() {
    let mut host = fake(two);
    host.runtime = "STATIC";
    host.executables = 1;
    let error = host.start().expect_err("the second is not served");
    assert_eq!(
        error,
        LifecycleError::Scaffold(
            "this application could not find its own executable, so it cannot serve a static site: gone".to_string()
        )
    );
    assert_eq!(
        host.told,
        [
            "prc_api STARTING",
            "spawn /opt/panel",
            "register 1",
            "prc_api RUNNING",
            "prc_web STARTING",
            "prc_web FAILED",
            "prc_api STOPPING",
            "stop 1",
            "stop 1",
        ]
    );
    assert_eq!(host.reasons, [error.message()]);
}

#[test]
fn a_check_that_never_passes_stops_its_process_and_fails_the_start() {
    let mut host = fake(gated);
    host.health = || Health::Failing("refused".to_string());
    let observed = host.start().expect("reported");
    assert_eq!(observed.status, ProjectStatus::Failed);
    assert!(host.told.contains(&"stop 1".to_string()));
    assert!(!host.told.contains(&"spawn web".to_string()));
}

#[test]
fn a_static_site_needs_no_toolchain() {
    let mut host = fake(two);
    host.runtime = "STATIC";
    host.start().expect("it starts");
    assert!(host.told.contains(&"spawn /opt/panel".to_string()));
}

#[test]
fn a_previous_run_is_ended_last_one_first() {
    let mut host = fake(two);
    host.start().expect("it starts");
    host.told.clear();
    host.start().expect("it starts again");
    assert_eq!(host.told[..2], ["stop 2", "stop 1"]);
}

#[test]
fn a_restart_replaces_one_process_and_leaves_the_other_alone() {
    let mut host = fake(two);
    host.start().expect("it starts");
    host.told.clear();
    assert_eq!(host.restart("web"), Ok(()));
    assert_eq!(host.told[0], "stop 2");
    assert_eq!(host.dead, [2]);
    let handles: Vec<u64> = host
        .orchestrator
        .registry()
        .processes("prj_1")
        .iter()
        .map(|process| process.handle)
        .collect();
    assert_eq!(handles, [1, 3]);
    assert!(host.told.contains(&"count prc_web".to_string()));
}

#[test]
fn a_restart_of_nothing_is_refused() {
    let mut host = fake(two);
    assert_eq!(
        host.restart("jobs"),
        Err(LifecycleError::NoSuchProcess {
            project: "prj_1".to_string(),
            process: "jobs".to_string(),
        })
    );
    assert!(host.told.is_empty());
}

#[test]
fn a_stop_goes_through_the_handles_in_reverse() {
    let mut host = fake(two);
    host.start().expect("it starts");
    assert_eq!(
        stop_order(&host.orchestrator.registry().processes("prj_1")),
        [2, 1]
    );
    assert_eq!(host.orchestrator.stop(&project()), [2, 1]);
    assert_eq!(host.orchestrator.stop(&project()), Vec::<u64>::new());
    assert_eq!(host.orchestrator.observe(&project(), &vec![]), None);
    assert_eq!(host.orchestrator.logs_root(), "/logs");
}

#[test]
fn a_reply_to_something_else_changes_nothing() {
    let host = fake(two);
    let run = host.orchestrator.start(context());
    let run = run.step(Reply::Replaced(true));
    assert!(matches!(run.request(), Request::ListProcesses { .. }));
    assert!(!run.is_finished());
    assert_eq!(ProcessState::Restarting.as_str(), "RESTARTING");
}
