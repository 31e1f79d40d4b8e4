use altqnav::applist::{get_app_list_with_status, icon_file_name, strip_extended_length_prefix};
use altqnav::loglines::{format_log_line, log_needs_rotation};
use altqnav::probe::ProcessSnapshot;
use altqnav::registry::MonitoredApp;
use altqnav::text::str_eq;

fn snapshot(entries: Vec<(u32, &str)>) -> ProcessSnapshot {
    ProcessSnapshot::from_entries(
        entries.into_iter().map(|(pid, name)| (pid, name.to_string())).collect(),
    )
}

#[test]
fn is_running_is_exact_string_equality() {
    let snap = snapshot(vec![(1, "Code.exe"), (2, "other")]);
    assert!(snap.is_running("Code.exe"));
    assert!(!snap.is_running("code.exe"));
    assert!(!snap.is_running("Code"));
    assert!(!snap.is_running("C:\\Code.exe"));
}

#[test]
fn empty_snapshot_answers_not_running() {
    let snap = snapshot(Vec::new());
    assert!(!snap.is_running("Code.exe"));
    assert!(snap.pids_for("Code.exe").is_empty());
}

#[test]
fn pids_for_returns_all_matches_in_order() {
    let snap = snapshot(vec![(5, "a.exe"), (9, "b.exe"), (7, "a.exe")]);
    assert_eq!(snap.pids_for("a.exe"), vec![5, 7]);
    assert_eq!(snap.pids_for("b.exe"), vec![9]);
    assert_eq!(snap.pids_for("c.exe"), Vec::<u32>::new());
}

#[test]
fn refresh_enumerates_this_process_table() {
    let snap = ProcessSnapshot::refresh();
    assert!(!snap.is_running("no-process-could-carry-this-name-zq81"));
    let _ = snap.pids_for("no-process-could-carry-this-name-zq81");
}

#[test]
fn app_list_carries_status_and_icons() {
    let apps = vec![
        MonitoredApp {
            process_executable_name: "Code.exe".to_string(),
            display_name: "VSCode".to_string(),
            launch_target: "code".to_string(),
        },
        MonitoredApp {
            process_executable_name: "gone.exe".to_string(),
            display_name: "Gone".to_string(),
            launch_target: "gone".to_string(),
        },
    ];
    let snap = snapshot(vec![(3, "Code.exe")]);
    let icons = vec![Some("/assets/VSCode.png".to_string()), None];
    let list = get_app_list_with_status(&apps, &snap, &icons);
    assert_eq!(list.len(), 2);
    assert_eq!(list[0].process_name, "Code.exe");
    assert_eq!(list[0].display_name, "VSCode");
    assert_eq!(list[0].launch_path, "code");
    assert!(list[0].is_running);
    assert_eq!(list[0].icon_path, Some("/assets/VSCode.png".to_string()));
    assert!(!list[1].is_running);
    assert_eq!(list[1].icon_path, None);
}

#[test]
fn icon_file_name_appends_png() {
    assert_eq!(icon_file_name("VSCode"), "VSCode.png");
    assert_eq!(icon_file_name(""), ".png");
}

#[test]
fn extended_length_prefix_is_stripped() {
    assert_eq!(strip_extended_length_prefix("\\\\?\\C:\\x\\a.png"), "C:\\x\\a.png");
    assert_eq!(strip_extended_length_prefix("C:\\x\\a.png"), "C:\\x\\a.png");
    assert_eq!(strip_extended_length_prefix("\\\\?"), "\\\\?");
}

#[test]
fn log_line_has_the_fixed_shape() {
    assert_eq!(
        format_log_line("2024-01-02 03:04:05", "ERROR", "launch", "boom"),
        "[2024-01-02 03:04:05] ERROR - launch: boom\n"
    );
}

#[test]
fn log_rotates_only_above_one_mebibyte() {
    assert!(!log_needs_rotation(1_048_576));
    assert!(log_needs_rotation(1_048_577));
    assert!(!log_needs_rotation(0));
}

#[test]
fn str_eq_compares_characters() {
    assert!(str_eq("abc", "abc"));
    assert!(!str_eq("abc", "abd"));
    assert!(!str_eq("abc", "ab"));
    assert!(str_eq("", ""));
}
