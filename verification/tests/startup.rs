//! Timing of startup stages.

use project_host::startup::{StartupDiagnostics, StartupStage};
use std::time::Duration;

#[test]
fn a_slow_stage_is_still_recorded_with_its_name() {
    let mut diagnostics = StartupDiagnostics::default();
    diagnostics.record("database", Duration::from_millis(12).as_millis(), "ok");
    diagnostics.record("docker", Duration::from_millis(4000).as_millis(), "timeout");
    assert_eq!(diagnostics.stages.len(), 2);
    assert_eq!(diagnostics.stages[0].name, "database");
    assert_eq!(diagnostics.stages[1].outcome, "timeout");
    assert_eq!(diagnostics.total_ms, 4012);
}

#[test]
fn a_stage_that_cannot_be_counted_is_recorded_as_the_most_there_is() {
    let mut diagnostics = StartupDiagnostics::default();
    diagnostics.record("forever", u128::MAX, "timeout");
    diagnostics.record("after", 1, "ok");
    assert_eq!(
        diagnostics.stages[0],
        StartupStage {
            name: "forever".to_string(),
            duration_ms: u64::MAX,
            outcome: "timeout".to_string(),
        }
    );
    assert_eq!(diagnostics.total_ms, u64::MAX);
}

#[test]
fn half_a_second_is_slow() {
    assert!(!StartupDiagnostics::is_slow(499));
    assert!(StartupDiagnostics::is_slow(500));
}
