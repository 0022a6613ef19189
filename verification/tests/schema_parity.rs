//! Reading the constraint lists out of a schema.

use project_host::orchestration::ProcessState;
use project_host::schema_parity::{check_values, table_body};

const SAMPLE: &str = "\
CREATE TABLE things (
    id TEXT PRIMARY KEY,
    status TEXT NOT NULL CHECK (status IN ('A','B','C')),
    CHECK (n BETWEEN 1 AND 2)
);
CREATE TABLE others (
    status TEXT NOT NULL CHECK (status IN ('X'))
);";

#[test]
fn extracts_the_right_table_body() {
    let body = table_body(SAMPLE, "things").expect("things");
    assert!(body.contains("'A','B','C'"));
    assert!(!body.contains("'X'"), "body leaked into the next table");
}

#[test]
fn scopes_a_column_to_its_own_table() {
    // `status` exists in both tables; each must yield its own list.
    let things = table_body(SAMPLE, "things").expect("things");
    let others = table_body(SAMPLE, "others").expect("others");
    assert_eq!(
        check_values(things, "status").expect("things.status"),
        ["A", "B", "C"]
    );
    assert_eq!(
        check_values(others, "status").expect("others.status"),
        ["X"]
    );
}

#[test]
fn nested_parentheses_do_not_end_the_body_early() {
    let body = table_body(SAMPLE, "things").expect("things");
    assert!(
        body.contains("BETWEEN 1 AND 2"),
        "stopped at a nested paren"
    );
}

#[test]
fn a_renamed_tables_quoted_definition_is_still_found() {
    // What `sqlite_master` holds after a table rebuild.
    let renamed = "CREATE TABLE \"things\" (\n    status TEXT CHECK (status IN ('A','B'))\n)";
    let body = table_body(renamed, "things").expect("quoted things");
    assert_eq!(check_values(body, "status").expect("status"), ["A", "B"]);
}

#[test]
fn missing_things_return_none() {
    assert!(table_body(SAMPLE, "nope").is_none());
    let body = table_body(SAMPLE, "things").expect("things");
    assert!(check_values(body, "absent_column").is_none());
}

/// The statuses a process can be in are two lists of the same values, and two
/// lists drift.
#[test]
fn a_status_check_lists_every_state_a_process_writes() {
    let schema = "CREATE TABLE project_processes (\n    id TEXT PRIMARY KEY,\n    status TEXT NOT NULL CHECK (status IN (\n        'STOPPED', 'STARTING', 'RUNNING', 'RESTARTING',\n        'STOPPING', 'CRASHED', 'FAILED'\n    ))\n);";
    let body = table_body(schema, "project_processes").expect("project_processes");
    let statuses = check_values(body, "status").expect("status has a CHECK");
    for state in [
        ProcessState::Pending,
        ProcessState::Starting,
        ProcessState::Running,
        ProcessState::Restarting,
        ProcessState::Stopping,
        ProcessState::Stopped,
        ProcessState::Crashed,
        ProcessState::Failed,
    ] {
        assert!(statuses.iter().any(|word| word.as_str() == state.as_str()));
    }
}

#[test]
fn a_body_that_never_closes_is_none() {
    assert_eq!(table_body("CREATE TABLE things (id TEXT", "things"), None);
    assert_eq!(table_body("CREATE TABLE things ()", "things"), Some(""));
}

#[test]
fn unquoted_values_are_left_out_of_a_list() {
    assert_eq!(
        check_values("n INTEGER CHECK (n IN (1, 2))", "n"),
        None,
        "a list without a quoted value is no list of words"
    );
}
