//! How the processes of a project come up and go down.

use project_host::orchestration::{Action, Event, Machine, Process, ProcessState, ProjectStatus};

fn plain(count: usize) -> Machine {
    Machine::new(vec![
        Process {
            has_health_check: false
        };
        count
    ])
}

fn spawns(actions: &[Action]) -> Vec<usize> {
    actions
        .iter()
        .filter_map(|action| match action {
            Action::Spawn { index } => Some(*index),
            _ => None,
        })
        .collect()
}

fn stops(actions: &[Action]) -> Vec<usize> {
    actions
        .iter()
        .filter_map(|action| match action {
            Action::Stop { index } => Some(*index),
            _ => None,
        })
        .collect()
}

/// Every process up, so the interesting tests start from a working
/// project rather than rebuilding one each time.
fn three_running() -> Machine {
    let mut machine = plain(3);
    machine.start();
    machine.handle(Event::Settled { index: 0 });
    machine.handle(Event::Settled { index: 1 });
    machine.handle(Event::Settled { index: 2 });
    assert_eq!(machine.project_status(), ProjectStatus::RUNNING);
    machine
}

#[test]
fn a_start_spawns_only_the_first_process() {
    let mut machine = plain(3);

    let actions = machine.start();

    assert_eq!(spawns(&actions), [0]);
    assert_eq!(machine.state(1), Some(ProcessState::Pending));
    assert_eq!(machine.state(2), Some(ProcessState::Pending));
    assert_eq!(machine.project_status(), ProjectStatus::STARTING);
}

#[test]
fn settling_advances_to_the_next_process() {
    let mut machine = plain(2);
    machine.start();

    let actions = machine.handle(Event::Settled { index: 0 });

    assert_eq!(machine.state(0), Some(ProcessState::Running));
    assert_eq!(spawns(&actions), [1]);
}

#[test]
fn a_process_with_a_health_check_gates_on_health_not_on_settling() {
    let mut machine = Machine::new(vec![
        Process {
            has_health_check: true,
        },
        Process {
            has_health_check: false,
        },
    ]);
    machine.start();

    let after_settle = machine.handle(Event::Settled { index: 0 });
    assert!(
        spawns(&after_settle).is_empty(),
        "surviving is not the same as being ready to be called"
    );

    let after_health = machine.handle(Event::Healthy { index: 0 });
    assert_eq!(spawns(&after_health), [1]);
}

#[test]
fn the_last_process_coming_up_makes_the_project_running() {
    let mut machine = plain(2);
    machine.start();
    machine.handle(Event::Settled { index: 0 });

    let actions = machine.handle(Event::Settled { index: 1 });

    assert_eq!(machine.project_status(), ProjectStatus::RUNNING);
    assert!(actions.contains(&Action::WriteProjectStatus {
        status: ProjectStatus::RUNNING
    }));
}

#[test]
fn a_project_with_no_processes_starts_nothing() {
    let mut machine = plain(0);
    let actions = machine.start();
    assert!(actions.is_empty());
    assert_eq!(machine.project_status(), ProjectStatus::STOPPED);
}

#[test]
fn a_restart_leaves_siblings_alone() {
    let mut machine = three_running();

    let actions = machine.handle(Event::Exited {
        index: 1,
        code: Some(1),
        terminal: false,
    });

    assert_eq!(machine.state(1), Some(ProcessState::Restarting));
    assert_eq!(machine.state(0), Some(ProcessState::Running));
    assert_eq!(machine.state(2), Some(ProcessState::Running));
    assert!(
        stops(&actions).is_empty(),
        "one blip must not tear the project down"
    );
    assert_eq!(machine.project_status(), ProjectStatus::RESTARTING);
}

#[test]
fn a_terminal_crash_stops_the_siblings_in_reverse_order() {
    let mut machine = three_running();

    let actions = machine.handle(Event::Exited {
        index: 0,
        code: Some(1),
        terminal: true,
    });

    assert_eq!(machine.state(0), Some(ProcessState::Crashed));
    assert_eq!(
        stops(&actions),
        [2, 1],
        "the process the others were started against goes last"
    );
    assert_eq!(machine.project_status(), ProjectStatus::CRASHED);
}

#[test]
fn a_process_that_never_ran_fails_rather_than_crashes() {
    let mut machine = plain(2);
    machine.start();

    machine.handle(Event::Exited {
        index: 0,
        code: Some(127),
        terminal: true,
    });

    assert_eq!(machine.state(0), Some(ProcessState::Failed));
    assert_eq!(
        machine.project_status(),
        ProjectStatus::FAILED,
        "`the runtime is missing` and `your code threw` want different answers"
    );
}

#[test]
fn a_process_that_ran_and_then_died_crashes() {
    let mut machine = three_running();

    machine.handle(Event::Exited {
        index: 2,
        code: Some(1),
        terminal: true,
    });

    assert_eq!(machine.state(2), Some(ProcessState::Crashed));
    assert_eq!(machine.project_status(), ProjectStatus::CRASHED);
}

#[test]
fn a_restart_that_then_gives_up_still_counts_as_having_run() {
    let mut machine = three_running();

    machine.handle(Event::Exited {
        index: 1,
        code: Some(1),
        terminal: false,
    });
    machine.handle(Event::Exited {
        index: 1,
        code: Some(1),
        terminal: true,
    });

    assert_eq!(
        machine.state(1),
        Some(ProcessState::Crashed),
        "a process that ran, then crash-looped, has still run"
    );
}

#[test]
fn a_stop_request_stops_everything_in_reverse_order() {
    let mut machine = three_running();

    let actions = machine.handle(Event::StopRequested);

    assert_eq!(stops(&actions), [2, 1, 0]);
}

#[test]
fn a_process_exiting_during_a_stop_is_not_a_crash() {
    let mut machine = three_running();
    machine.handle(Event::StopRequested);

    machine.handle(Event::Exited {
        index: 2,
        code: Some(0),
        terminal: true,
    });

    assert_eq!(
        machine.state(2),
        Some(ProcessState::Stopped),
        "it exited because it was asked to"
    );
}

#[test]
fn everything_stopped_leaves_the_project_stopped() {
    let mut machine = three_running();
    machine.handle(Event::StopRequested);

    for index in (0..3).rev() {
        machine.handle(Event::Exited {
            index,
            code: Some(0),
            terminal: true,
        });
    }

    assert_eq!(machine.project_status(), ProjectStatus::STOPPED);
}

#[test]
fn prepare_failing_fails_the_project_without_spawning_anything() {
    let mut machine = plain(1);

    let actions = machine.handle(Event::PrepareFailed {
        index: 0,
        reason: "npm install exited 1".to_string(),
    });

    assert_eq!(machine.project_status(), ProjectStatus::FAILED);
    assert!(spawns(&actions).is_empty());
    assert!(actions.contains(&Action::WriteProcessStatus {
        index: 0,
        state: ProcessState::Failed,
        reason: Some("npm install exited 1".to_string()),
    }));
}

#[test]
fn an_event_for_a_process_that_does_not_exist_is_ignored() {
    // The driver and the machine index the same list, but a stale event
    // arriving after a process set changed must not panic — the workspace
    // denies indexing that can.
    let mut machine = plain(1);
    machine.start();

    let actions = machine.handle(Event::Settled { index: 7 });

    assert_eq!(machine.state(0), Some(ProcessState::Starting));
    assert!(spawns(&actions).is_empty());
}

/// The state machine's words and the column's `CHECK` are two lists of the
/// same values, and two lists drift.
#[test]
fn every_state_has_a_wire_value_the_schema_allows() {
    let allowed = [
        "STOPPED",
        "STARTING",
        "RUNNING",
        "RESTARTING",
        "STOPPING",
        "CRASHED",
        "FAILED",
    ];

    for state in [
        ProcessState::Pending,
        ProcessState::Starting,
        ProcessState::Running,
        ProcessState::Restarting,
        ProcessState::Stopping,
        ProcessState::Stopped,
        ProcessState::Crashed,
        ProcessState::Failed,
    ] {
        assert!(
            allowed.contains(&state.as_str()),
            "{state:?} writes {}, which the CHECK refuses",
            state.as_str()
        );
    }
}

#[test]
fn a_start_says_what_it_did_in_order() {
    let mut machine = plain(2);

    assert_eq!(
        machine.start(),
        vec![
            Action::WriteProcessStatus {
                index: 0,
                state: ProcessState::Starting,
                reason: None,
            },
            Action::Spawn { index: 0 },
            Action::WriteProjectStatus {
                status: ProjectStatus::STARTING,
            },
        ]
    );
}

#[test]
fn a_terminal_exit_ends_with_the_status_of_the_project() {
    let mut machine = three_running();

    let actions = machine.handle(Event::Exited {
        index: 1,
        code: Some(3),
        terminal: true,
    });

    assert_eq!(stops(&actions), [2, 0]);
    assert!(spawns(&actions).is_empty());
    assert_eq!(
        actions.last(),
        Some(&Action::WriteProjectStatus {
            status: ProjectStatus::CRASHED
        })
    );
}

#[test]
fn health_says_nothing_of_a_process_without_a_check() {
    let mut machine = plain(1);
    machine.start();
    assert!(machine.handle(Event::Healthy { index: 0 }).is_empty());
    assert_eq!(machine.state(0), Some(ProcessState::Starting));
}

#[test]
fn a_stop_is_not_undone_by_what_happens_next() {
    let mut machine = three_running();
    machine.handle(Event::StopRequested);
    let actions = machine.handle(Event::Exited {
        index: 1,
        code: None,
        terminal: false,
    });
    assert!(spawns(&actions).is_empty());
    assert_eq!(machine.state(1), Some(ProcessState::Stopped));
}

#[test]
fn starting_again_forgets_an_earlier_stop() {
    let mut machine = three_running();
    machine.handle(Event::StopRequested);
    for index in 0..3 {
        machine.handle(Event::Exited {
            index,
            code: Some(0),
            terminal: true,
        });
    }
    machine.start();
    machine.handle(Event::Settled { index: 0 });
    machine.handle(Event::Exited {
        index: 0,
        code: Some(1),
        terminal: true,
    });
    assert_eq!(machine.state(0), Some(ProcessState::Crashed));
}

/// Two processes, the first on its way up and the second waiting for it.
fn two_starting() -> Machine {
    let mut machine = plain(2);
    machine.start();
    machine
}

fn still_starting(machine: &Machine, actions: &[Action]) {
    assert_eq!(machine.state(0), Some(ProcessState::Starting));
    assert_eq!(machine.state(1), Some(ProcessState::Pending));
    assert_eq!(machine.state(2), None);
    assert!(spawns(actions).is_empty());
    assert!(stops(actions).is_empty());
    assert_eq!(machine.project_status(), ProjectStatus::STARTING);
}

#[test]
fn a_stale_settle_lets_nobody_go() {
    let mut machine = two_starting();
    let actions = machine.handle(Event::Settled { index: 7 });
    still_starting(&machine, &actions);
}

#[test]
fn a_stale_report_of_health_lets_nobody_go() {
    let mut machine = two_starting();
    let actions = machine.handle(Event::Healthy { index: 7 });
    still_starting(&machine, &actions);
}

#[test]
fn a_stale_terminal_exit_stops_nobody() {
    let mut machine = two_starting();
    let actions = machine.handle(Event::Exited {
        index: 7,
        code: Some(1),
        terminal: true,
    });
    still_starting(&machine, &actions);

    let mut machine = three_running();
    let actions = machine.handle(Event::Exited {
        index: 3,
        code: Some(1),
        terminal: true,
    });
    assert!(stops(&actions).is_empty());
    assert_eq!(machine.project_status(), ProjectStatus::RUNNING);
}

#[test]
fn a_stale_failed_preparation_stops_nobody() {
    let mut machine = two_starting();
    let actions = machine.handle(Event::PrepareFailed {
        index: 7,
        reason: "npm install exited 1".to_string(),
    });
    still_starting(&machine, &actions);
}

#[test]
fn a_stale_exit_moves_no_process() {
    let mut machine = three_running();
    let actions = machine.handle(Event::Exited {
        index: 9,
        code: Some(1),
        terminal: false,
    });
    assert!(spawns(&actions).is_empty());
    assert!(stops(&actions).is_empty());
    for index in 0..3 {
        assert_eq!(machine.state(index), Some(ProcessState::Running));
    }
    assert_eq!(machine.state(3), None);
}

#[test]
fn a_process_that_comes_up_again_lets_nobody_jump_the_queue() {
    let mut machine = plain(3);
    machine.start();
    machine.handle(Event::Settled { index: 0 });
    machine.handle(Event::Exited {
        index: 0,
        code: Some(1),
        terminal: false,
    });

    let actions = machine.handle(Event::Settled { index: 0 });

    assert_eq!(machine.state(0), Some(ProcessState::Running));
    assert_eq!(machine.state(1), Some(ProcessState::Starting));
    assert_eq!(machine.state(2), Some(ProcessState::Pending));
    assert!(spawns(&actions).is_empty());

    let actions = machine.handle(Event::Settled { index: 1 });
    assert_eq!(spawns(&actions), [2]);
}

#[test]
fn trouble_is_not_hidden_by_what_runs() {
    let mut machine = three_running();
    machine.handle(Event::Exited {
        index: 0,
        code: Some(1),
        terminal: false,
    });
    assert_eq!(machine.state(2), Some(ProcessState::Running));
    assert_eq!(machine.project_status(), ProjectStatus::RESTARTING);
}

#[test]
fn the_words_of_a_project_differ() {
    let words = [
        ProjectStatus::RUNNING.as_str(),
        ProjectStatus::STARTING.as_str(),
        ProjectStatus::RESTARTING.as_str(),
        ProjectStatus::CRASHED.as_str(),
        ProjectStatus::FAILED.as_str(),
        ProjectStatus::STOPPED.as_str(),
    ];
    for (at, word) in words.iter().enumerate() {
        assert!(!words[at + 1..].contains(word));
    }
    assert_eq!(ProcessState::Pending.as_str(), ProcessState::Stopped.as_str());
    assert!(ProcessState::Failed.is_finished());
    assert!(!ProcessState::Stopping.is_finished());
}
