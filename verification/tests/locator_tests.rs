use altqnav::locator::{locate, EnumeratedWindow, WindowCandidate};

fn win(handle: u64, owner_pid: u32, visible: bool, has_title: bool) -> EnumeratedWindow {
    EnumeratedWindow { handle, owner_pid, visible, has_title }
}

#[test]
fn first_titled_match_wins_and_enumeration_stops() {
    let windows = vec![
        win(1, 10, true, false),
        win(2, 10, true, true),
        win(3, 10, true, true),
    ];
    let pids = vec![10];
    assert_eq!(locate(&windows, &pids), Some(WindowCandidate { handle: 2, has_title: true }));
}

#[test]
fn first_untitled_match_is_the_fallback() {
    let windows = vec![win(1, 10, true, false), win(2, 10, true, false)];
    let pids = vec![10];
    assert_eq!(locate(&windows, &pids), Some(WindowCandidate { handle: 1, has_title: false }));
}

#[test]
fn invisible_windows_are_skipped() {
    let windows = vec![win(1, 10, false, true), win(2, 10, true, false)];
    let pids = vec![10];
    assert_eq!(locate(&windows, &pids), Some(WindowCandidate { handle: 2, has_title: false }));
}

#[test]
fn windows_of_other_processes_are_skipped() {
    let windows = vec![win(1, 99, true, true), win(2, 10, true, false)];
    let pids = vec![10];
    assert_eq!(locate(&windows, &pids), Some(WindowCandidate { handle: 2, has_title: false }));
}

#[test]
fn titled_match_beats_an_earlier_untitled_fallback() {
    let windows = vec![win(1, 10, true, false), win(2, 99, true, true), win(3, 10, true, true)];
    let pids = vec![10];
    assert_eq!(locate(&windows, &pids), Some(WindowCandidate { handle: 3, has_title: true }));
}

#[test]
fn no_visible_matching_window_yields_none() {
    let windows = vec![win(1, 99, true, true), win(2, 10, false, true)];
    let pids = vec![10];
    assert_eq!(locate(&windows, &pids), None);
    assert_eq!(locate(&Vec::new(), &pids), None);
}

#[test]
fn any_of_several_pids_matches() {
    let windows = vec![win(1, 11, true, true)];
    let pids = vec![10, 11, 12];
    assert_eq!(locate(&windows, &pids), Some(WindowCandidate { handle: 1, has_title: true }));
}
