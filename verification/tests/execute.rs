//! What came of running the steps of an install.

use project_host::execute::{
    confirm, environment_query, environment_value, is_bare_name, judge, last_lines, resolve, run,
    spawnable, Blocker, Ran, Step,
};

fn step(program: &str) -> Step {
    Step {
        elevated: false,
        program: program.to_string(),
        args: Vec::new(),
        subject: "the project's own dependencies".to_string(),
        describes: "Run something".to_string(),
    }
}

fn exited(code: i32, stderr: &[u8]) -> Ran {
    Ran::Exited {
        code: Some(code),
        stdout: Vec::new(),
        stderr: stderr.to_vec(),
    }
}

/// The reason a package manager gives is on the last lines, and the whole
/// log would not fit in a dialog.
#[test]
fn a_failure_report_keeps_the_end_of_the_output_where_the_reason_is() {
    let stderr = b"resolving\n\nfetching\nE: Unable to locate package nodejs\n";

    assert_eq!(
        last_lines(stderr, b""),
        "resolving fetching E: Unable to locate package nodejs"
    );
}

#[test]
fn stdout_is_used_when_a_command_failed_without_writing_to_stderr() {
    assert_eq!(last_lines(b"", b"No package found"), "No package found");
}

#[test]
fn only_the_last_three_lines_are_kept() {
    assert_eq!(last_lines(b"a\nb\nc\nd\ne", b""), "c d e");
}

/// A program that never started did not exit, so it has no exit code. A report
/// that invents -1 reads "npm exited with code -1. program not found", a
/// sentence that contradicts itself and sends the user looking for a failing
/// installer rather than a missing program.
#[test]
fn a_program_that_cannot_be_started_is_not_reported_as_having_exited() {
    let step = Step {
        elevated: false,
        program: "panel-no-such-program-anywhere".to_string(),
        args: Vec::new(),
        subject: "the project's own dependencies".to_string(),
        describes: "Run something that is not there".to_string(),
    };

    let result = run(&step, &Ran::NotFound);

    match result {
        Err(Blocker::ProgramNotFound {
            program,
            display_name,
        }) => {
            assert_eq!(program, "panel-no-such-program-anywhere");
            assert_eq!(display_name, "the project's own dependencies");
        }
        other => panic!("expected ProgramNotFound, got {other:?}"),
    }
}

/// Confirmation must never claim to have found something on a machine that
/// has nothing, which is what a candidate list that is empty would do.
#[test]
fn confirming_nothing_is_a_failure_rather_than_a_success() {
    let result = confirm(&Vec::new(), &Vec::new(), "Node.js");

    assert!(matches!(
        result,
        Err(Blocker::StillMissingAfterInstall { .. })
    ));
}

#[test]
fn the_first_candidate_that_is_found_is_the_answer() {
    let candidates = vec!["node".to_string(), "nodejs".to_string()];
    assert_eq!(
        confirm(
            &candidates,
            &vec![None, Some("/usr/bin/nodejs".to_string())],
            "Node.js"
        ),
        Ok("/usr/bin/nodejs".to_string())
    );
    assert_eq!(
        confirm(&candidates, &vec![None, None], "Node.js"),
        Err(Blocker::StillMissingAfterInstall {
            display_name: "Node.js".to_string(),
            executable: "node, nodejs".to_string(),
        })
    );
}

/// Bytes that are no text still make a report: what cannot be read is shown as
/// the replacement character.
#[test]
fn output_that_is_no_text_is_still_reported() {
    assert_eq!(last_lines(b"caf\xc3\xa9\n", b""), "caf\u{e9}");
    assert_eq!(last_lines(b"bad \xff byte", b""), "bad \u{fffd} byte");
}

#[test]
fn a_dismissed_prompt_is_not_a_failed_install() {
    for code in [1223, 126, 127] {
        assert_eq!(
            run(&step("pkexec"), &exited(code, b"dismissed")),
            Err(Blocker::NotAuthorised {
                display_name: "the project's own dependencies".to_string(),
            })
        );
    }
}

#[test]
fn a_failed_step_quotes_its_code_and_its_last_words() {
    assert_eq!(
        run(&step("npm"), &exited(1, b"resolving\nE: no network\n")),
        Err(Blocker::StepFailed {
            display_name: "the project's own dependencies".to_string(),
            program: "npm".to_string(),
            code: 1,
            output: "resolving E: no network".to_string(),
        })
    );
}

#[test]
fn a_step_that_could_not_be_started_says_why() {
    assert_eq!(
        run(
            &step("npm"),
            &Ran::NotStarted {
                error: "permission denied".to_string()
            }
        ),
        Err(Blocker::StepFailed {
            display_name: "the project's own dependencies".to_string(),
            program: "npm".to_string(),
            code: -1,
            output: "permission denied".to_string(),
        })
    );
}

#[test]
fn a_step_that_ended_well_or_by_a_signal_is_over() {
    assert_eq!(run(&step("npm"), &exited(0, b"")), Ok(()));
    let signalled = Ran::Exited {
        code: None,
        stdout: Vec::new(),
        stderr: Vec::new(),
    };
    assert_eq!(judge(&step("npm"), &signalled, String::new()), Ok(()));
}

#[test]
fn a_path_is_spawned_as_it_was_written() {
    assert!(is_bare_name("npm"));
    assert!(!is_bare_name("./npm"));
    assert!(!is_bare_name("C:\\tools\\npm"));
    assert_eq!(resolve("./npm", Some("/usr/bin/npm".to_string())), None);
    assert_eq!(
        spawnable("npm", Some("C:\\npm.cmd".to_string())),
        "C:\\npm.cmd"
    );
    assert_eq!(spawnable("npm", None), "npm");
    assert_eq!(spawnable("./npm", Some("/usr/bin/npm".to_string())), "./npm");
}

#[test]
fn a_path_is_read_out_of_what_a_query_wrote() {
    assert_eq!(
        environment_query("Machine"),
        "[Environment]::GetEnvironmentVariable('Path','Machine')"
    );
    assert_eq!(
        environment_value(true, b" C:\\Windows;C:\\node \r\n").as_deref(),
        Some("C:\\Windows;C:\\node")
    );
    assert_eq!(environment_value(true, b"  \r\n"), None);
    assert_eq!(environment_value(false, b"C:\\Windows"), None);
}
