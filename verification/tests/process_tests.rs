//! Tests for the process-selection heuristic.

use jetbrains_toolbox_updater::errors::UpdateError;
use jetbrains_toolbox_updater::process::{select_toolbox_processes, ProcessRecord};

fn record(exe_file_name: &str, name: &str) -> ProcessRecord {
    ProcessRecord {
        has_exe: true,
        exe_file_name: Some(String::from(exe_file_name)),
        name: Some(String::from(name)),
    }
}

#[test]
fn selects_main_and_helper_processes() {
    let records = vec![
        record("java", "java"),
        record("jetbrains-toolbox", "jetbrains-toolb"),
        record("jetbrains-toolbox", "jetbrains-toolbox"),
        record("firefox", "firefox"),
        record("jetbrains-toolbox", "jetbrains"),
    ];
    let sel = select_toolbox_processes(&records).unwrap();
    assert_eq!(sel, vec![1, 2, 4]);
}

#[test]
fn name_must_start_with_prefix() {
    // Same binary name, but the reported process name does not begin with
    // the prefix: not selected.
    let records = vec![record("jetbrains-toolbox", "helper-jetbrains")];
    let sel = select_toolbox_processes(&records).unwrap();
    assert!(sel.is_empty());
}

#[test]
fn binary_name_must_match_exactly() {
    let records = vec![record("jetbrains-toolbox-helper", "jetbrains-toolb")];
    let sel = select_toolbox_processes(&records).unwrap();
    assert!(sel.is_empty());
}

#[test]
fn process_without_exe_is_skipped() {
    let records = vec![ProcessRecord { has_exe: false, exe_file_name: None, name: None }];
    let sel = select_toolbox_processes(&records).unwrap();
    assert!(sel.is_empty());
}

#[test]
fn unreadable_process_name_is_skipped() {
    let records = vec![ProcessRecord {
        has_exe: true,
        exe_file_name: Some(String::from("jetbrains-toolbox")),
        name: None,
    }];
    let sel = select_toolbox_processes(&records).unwrap();
    assert!(sel.is_empty());
}

#[test]
fn exe_path_without_file_name_fails_selection() {
    let records = vec![
        record("jetbrains-toolbox", "jetbrains-toolb"),
        ProcessRecord { has_exe: true, exe_file_name: None, name: Some(String::from("x")) },
    ];
    match select_toolbox_processes(&records) {
        Err(UpdateError::CouldNotTerminate(m)) => assert_eq!(m, "Error getting file_name"),
        other => panic!("expected CouldNotTerminate, got {:?}", other),
    }
}

#[test]
fn empty_process_table_selects_nothing() {
    let records: Vec<ProcessRecord> = Vec::new();
    let sel = select_toolbox_processes(&records).unwrap();
    assert!(sel.is_empty());
}
