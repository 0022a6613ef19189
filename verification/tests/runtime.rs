//! Launching and stopping the application.

use project_host::runtime::{
    new_instance_id, resolve_paths, run_optional_startup, LaunchReply, LaunchTask, Layout, Runtime,
    RuntimeError, ShutdownStep, POWER_INTERVAL_S, RECONCILE_INTERVAL_S, USAGE_SAMPLE_INTERVAL_S,
};
use project_host::startup::StartupDiagnostics;

/// What a machine on which everything works replies.
fn fine(task: &LaunchTask) -> LaunchReply {
    match task {
        LaunchTask::EnsureDirectories => LaunchReply::Directories {
            result: Ok(()),
            millis: 1,
        },
        LaunchTask::OpenDatabase => LaunchReply::Opened(Ok(())),
        LaunchTask::AssertSchema => LaunchReply::Asserted(Ok(())),
        LaunchTask::ReadSchemaVersion => LaunchReply::SchemaVersion {
            result: Ok(9),
            millis: 20,
        },
        LaunchTask::BeginSession { .. } => LaunchReply::Session {
            result: Ok(true),
            millis: 300,
        },
        LaunchTask::Recover { .. } => LaunchReply::Recovered {
            result: Ok(true),
            millis: 0,
        },
        LaunchTask::Assess => LaunchReply::Assessed { millis: 0 },
        LaunchTask::LoadMasterKey => LaunchReply::MasterKey {
            loaded: true,
            millis: 0,
        },
        LaunchTask::Reconcile => LaunchReply::Reconciled { millis: 4000 },
        LaunchTask::Nothing => LaunchReply::Assessed { millis: 0 },
    }
}

fn launched(reply: fn(&LaunchTask) -> LaunchReply) -> Runtime {
    let mut run = Runtime::new("abc".to_string());
    for _ in 0..20 {
        if run.is_finished() {
            break;
        }
        let next = reply(&run.request());
        run = run.step(next);
    }
    run
}

#[test]
fn a_launch_records_every_stage_in_order() {
    let run = launched(fine);
    assert!(run.is_finished());
    assert!(run.is_launched());
    assert_eq!(run.instance_id(), "abc");
    let names: Vec<&str> = run
        .startup_diagnostics()
        .stages
        .iter()
        .map(|stage| stage.name.as_str())
        .collect();
    assert_eq!(
        names,
        [
            "directories",
            "database",
            "session",
            "recovery",
            "assessment",
            "master_key",
            "reconcile",
        ]
    );
    let (outcome, diagnostics) = run.outcome();
    assert_eq!(outcome, Some(Ok(())));
    assert_eq!(diagnostics.total_ms, 4321);
}

#[test]
fn a_session_knows_the_schema_and_the_instance() {
    let mut run = Runtime::new("abc".to_string());
    for _ in 0..4 {
        let next = fine(&run.request());
        run = run.step(next);
    }
    match run.request() {
        LaunchTask::BeginSession {
            schema_version,
            instance_id,
            address,
        } => {
            assert_eq!(schema_version, 9);
            assert_eq!(instance_id, "abc");
            assert_eq!(address, "in-process");
        }
        other => panic!("expected a session, got {other:?}"),
    }
}

#[test]
fn an_unclean_stop_makes_recovery_thorough() {
    let mut run = Runtime::new("abc".to_string());
    for _ in 0..4 {
        let next = fine(&run.request());
        run = run.step(next);
    }
    run = run.step(LaunchReply::Session {
        result: Ok(false),
        millis: 0,
    });
    assert!(matches!(
        run.request(),
        LaunchTask::Recover { was_clean: false }
    ));
    run = run.step(LaunchReply::Recovered {
        result: Ok(false),
        millis: 0,
    });
    assert!(matches!(run.request(), LaunchTask::Assess));
    assert_eq!(
        run.startup_diagnostics().stages.last().map(|stage| stage.outcome.as_str()),
        Some("integrity-failed")
    );
}

#[test]
fn a_missing_key_does_not_fail_a_launch() {
    let run = launched(|task| match task {
        LaunchTask::LoadMasterKey => LaunchReply::MasterKey {
            loaded: false,
            millis: 0,
        },
        other => fine(other),
    });
    let (outcome, diagnostics) = run.outcome();
    assert_eq!(outcome, Some(Ok(())));
    assert_eq!(diagnostics.stages[5].outcome, "error");
}

#[test]
fn directories_and_the_database_fail_a_launch_under_their_names() {
    let run = launched(|_| LaunchReply::Directories {
        result: Err("read-only".to_string()),
        millis: 0,
    });
    let (outcome, diagnostics) = run.outcome();
    assert_eq!(
        outcome,
        Some(Err(RuntimeError::Directories("read-only".to_string())))
    );
    assert!(diagnostics.stages.is_empty());

    let run = launched(|task| match task {
        LaunchTask::AssertSchema => LaunchReply::Asserted(Err("too new".to_string())),
        other => fine(other),
    });
    assert!(matches!(run.request(), LaunchTask::Nothing));
    assert!(!run.is_launched());
    let (outcome, _) = run.outcome();
    assert_eq!(
        outcome
            .expect("over")
            .expect_err("a schema that is too new")
            .message(),
        "database error: too new"
    );
    assert_eq!(
        RuntimeError::Directories("read-only".to_string()).message(),
        "could not prepare directories: read-only"
    );
}

#[test]
fn an_instance_has_a_random_identifier() {
    let id = new_instance_id();
    assert_eq!(id.len(), 32);
    assert!(id
        .chars()
        .all(|c| c.is_ascii_digit() || ('a'..='f').contains(&c)));
    assert_eq!(id.as_bytes()[12], b'4');
    assert!(b"89ab".contains(&id.as_bytes()[16]));
    assert_eq!(Runtime::start().instance_id().len(), 32);
    let parsed = uuid::Uuid::parse_str(&id).expect("an identifier");
    assert_eq!(parsed.get_version_num(), 4);
}

#[test]
fn a_heartbeat_that_failed_is_recorded() {
    let mut diagnostics = StartupDiagnostics::default();
    run_optional_startup(&mut diagnostics, true, 3);
    run_optional_startup(&mut diagnostics, false, 4);
    assert_eq!(diagnostics.stages[0].name, "heartbeat");
    assert_eq!(diagnostics.stages[0].outcome, "ok");
    assert_eq!(diagnostics.stages[1].outcome, "error");
    assert_eq!(diagnostics.total_ms, 7);
}

#[test]
fn a_stop_ends_with_the_database() {
    let steps = launched(fine).shutdown();
    assert_eq!(
        steps,
        [
            ShutdownStep::AbortSampler,
            ShutdownStep::AbortReconciler,
            ShutdownStep::AbortPower,
            ShutdownStep::ReleasePower,
            ShutdownStep::StopBots,
            ShutdownStep::StopProjects,
            ShutdownStep::RecordCleanShutdown,
            ShutdownStep::Checkpoint,
            ShutdownStep::CloseDatabase,
        ]
    );
}

#[test]
fn a_directory_that_is_named_is_used() {
    assert_eq!(
        resolve_paths(Some("/tmp/panel".to_string())),
        Layout::Rooted("/tmp/panel".to_string())
    );
    assert_eq!(resolve_paths(None), Layout::Platform);
    assert_eq!(
        (
            USAGE_SAMPLE_INTERVAL_S,
            RECONCILE_INTERVAL_S,
            POWER_INTERVAL_S
        ),
        (2, 2, 5)
    );
}
