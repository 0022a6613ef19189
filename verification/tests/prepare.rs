//! What is installed and built before a project starts.

use project_host::orchestrator::prepare::{prepare_steps, PrepareStep};
use project_host::records::ProcessRecord;

fn process(
    name: &str,
    order: i64,
    working_dir: &str,
    install: Option<&str>,
    build: Option<&str>,
) -> ProcessRecord {
    ProcessRecord {
        id: format!("prc_{name}"),
        project_id: "prj_1".to_string(),
        name: name.to_string(),
        start_order: order,
        command: "node index.js".to_string(),
        working_dir: working_dir.to_string(),
        install_command: install.map(str::to_string),
        build_command: build.map(str::to_string),
        health_check_type: "NONE".to_string(),
        health_check_target: None,
        health_interval_s: 30,
        health_timeout_s: 5,
        health_retries: 3,
        health_start_period_s: 20,
        status: "STOPPED".to_string(),
        pid: None,
        exit_code: None,
        failure_reason: None,
        started_at: None,
        restart_count: 0,
    }
}

fn phases(steps: &[PrepareStep]) -> Vec<&str> {
    steps.iter().map(|step| step.phase).collect()
}

#[test]
fn one_root_install_declared_twice_runs_once() {
    let steps = prepare_steps(&[
        process("api", 0, ".", Some("npm install"), None),
        process("web", 1, ".", Some("npm install"), None),
    ]);

    assert_eq!(
        steps.len(),
        1,
        "the same install in the same place is one step"
    );
    assert_eq!(steps[0].command, "npm install");
}

#[test]
fn two_workspace_installs_both_run() {
    let steps = prepare_steps(&[
        process("api", 0, "packages/api", Some("npm install"), None),
        process("web", 1, "packages/web", Some("npm install"), None),
    ]);

    assert_eq!(
        steps.len(),
        2,
        "same words, different directory, different work"
    );
}

#[test]
fn every_install_precedes_every_build() {
    let steps = prepare_steps(&[
        process(
            "api",
            0,
            ".",
            Some("npm install"),
            Some("npm run build:api"),
        ),
        process(
            "web",
            1,
            ".",
            Some("npm install"),
            Some("npm run build:web"),
        ),
    ]);

    assert_eq!(phases(&steps), ["install", "build", "build"]);
}

#[test]
fn builds_are_not_deduplicated() {
    let steps = prepare_steps(&[
        process("api", 0, ".", None, Some("npm run build")),
        process("web", 1, ".", None, Some("npm run build")),
    ]);

    assert_eq!(
        steps.len(),
        2,
        "each process builds its own output; skipping one leaves it stale"
    );
}

#[test]
fn a_blank_command_is_not_a_step() {
    let steps = prepare_steps(&[
        process("main", 0, ".", Some("   "), Some("")),
        process("other", 1, ".", None, None),
    ]);

    assert!(steps.is_empty());
}

#[test]
fn a_step_names_the_process_that_declared_it() {
    let steps = prepare_steps(&[
        process("api", 0, ".", None, None),
        process("web", 1, ".", Some("pnpm install"), None),
    ]);

    assert_eq!(steps.len(), 1);
    assert_eq!(
        steps[0].process_index, 1,
        "a failure has to be able to say which process asked for this"
    );
}

#[test]
fn a_project_with_nothing_to_prepare_prepares_nothing() {
    assert!(prepare_steps(&[]).is_empty());
}

#[test]
fn the_same_command_in_the_root_and_a_subdirectory_are_both_kept() {
    let steps = prepare_steps(&[
        process("api", 0, ".", Some("npm install"), None),
        process("web", 1, "web", Some("npm install"), None),
    ]);

    let dirs: Vec<&str> = steps.iter().map(|s| s.working_dir.as_str()).collect();
    assert_eq!(dirs, [".", "web"]);
}

#[test]
fn the_steps_of_a_project_are_exactly_these() {
    let steps = prepare_steps(&[
        process("api", 0, "api", Some(" npm ci "), Some("npm run build")),
        process("web", 1, "web", Some("npm ci"), None),
        process("jobs", 2, "api", Some("npm ci"), Some("npm run build")),
    ]);

    let told: Vec<(&str, &str, &str, usize)> = steps
        .iter()
        .map(|step| {
            (
                step.phase,
                step.working_dir.as_str(),
                step.command.as_str(),
                step.process_index,
            )
        })
        .collect();
    assert_eq!(
        told,
        [
            ("install", "api", "npm ci", 0),
            ("install", "web", "npm ci", 1),
            ("build", "api", "npm run build", 0),
            ("build", "api", "npm run build", 2),
        ]
    );
}
