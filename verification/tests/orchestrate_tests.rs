use altqnav::activate::{activation_sequence, ActivationStep};
use altqnav::orchestrate::{
    action_for, classify_launch_target, outcome_result, step, LaunchAction, LaunchEvent,
    LaunchOutcome, LaunchPhase, TargetKind,
};

#[test]
fn protocol_uri_classification() {
    assert_eq!(classify_launch_target("ms-settings:"), TargetKind::ProtocolUri);
    assert_eq!(classify_launch_target("calculator:"), TargetKind::ProtocolUri);
}

#[test]
fn backslash_disambiguates_drive_letter_colon() {
    assert_eq!(classify_launch_target("C:\\apps\\foo.exe"), TargetKind::ExecutablePath);
}

#[test]
fn quoted_target_is_not_a_protocol() {
    assert_eq!(classify_launch_target("\"foo:bar\""), TargetKind::ExecutablePath);
}

#[test]
fn plain_path_without_colon_is_executable() {
    assert_eq!(classify_launch_target("code"), TargetKind::ExecutablePath);
    assert_eq!(classify_launch_target(""), TargetKind::ExecutablePath);
}

#[test]
fn not_running_spawns_and_reports_launched() {
    let phase = LaunchPhase::Probing;
    assert_eq!(action_for(&phase), LaunchAction::Probe);
    let phase = step(phase, LaunchEvent::Probed(false), true);
    assert_eq!(action_for(&phase), LaunchAction::Spawn);
    let phase = step(phase, LaunchEvent::Spawned(Ok(())), true);
    assert_eq!(phase, LaunchPhase::Done(LaunchOutcome::Launched));
    let r = outcome_result(&LaunchOutcome::Launched, "Code.exe");
    assert_eq!(r, Ok("launched Code.exe".to_string()));
}

#[test]
fn running_with_activatable_window_switches_without_spawn() {
    let mut actions = Vec::new();
    let mut phase = LaunchPhase::Probing;
    actions.push(action_for(&phase));
    phase = step(phase, LaunchEvent::Probed(true), true);
    actions.push(action_for(&phase));
    phase = step(phase, LaunchEvent::Focused(Ok(())), true);
    actions.push(action_for(&phase));
    assert_eq!(phase, LaunchPhase::Done(LaunchOutcome::Switched));
    assert_eq!(actions, vec![LaunchAction::Probe, LaunchAction::Focus, LaunchAction::Finish]);
    assert!(!actions.contains(&LaunchAction::Spawn));
    let r = outcome_result(&LaunchOutcome::Switched, "Code.exe");
    assert_eq!(r, Ok("switched to Code.exe".to_string()));
}

#[test]
fn running_with_no_window_spawns_exactly_once() {
    let mut spawns = 0;
    let mut phase = LaunchPhase::Probing;
    phase = step(phase, LaunchEvent::Probed(true), true);
    phase = step(phase, LaunchEvent::Focused(Err("no window found".to_string())), true);
    while action_for(&phase) != LaunchAction::Finish {
        match action_for(&phase) {
            LaunchAction::Spawn => {
                spawns += 1;
                phase = step(phase, LaunchEvent::Spawned(Ok(())), true);
            }
            other => panic!("unexpected action {:?}", other),
        }
    }
    assert_eq!(spawns, 1);
    assert_eq!(phase, LaunchPhase::Done(LaunchOutcome::Launched));
}

#[test]
fn fallback_spawn_failure_reports_the_focus_error() {
    let mut phase = LaunchPhase::Probing;
    phase = step(phase, LaunchEvent::Probed(true), true);
    phase = step(phase, LaunchEvent::Focused(Err("no window for Code.exe".to_string())), true);
    phase = step(phase, LaunchEvent::Spawned(Err("os refused".to_string())), true);
    assert_eq!(
        phase,
        LaunchPhase::Done(LaunchOutcome::FocusFailed("no window for Code.exe".to_string()))
    );
    let r = outcome_result(
        &LaunchOutcome::FocusFailed("no window for Code.exe".to_string()),
        "Code.exe",
    );
    assert_eq!(r, Err("window switch failed: no window for Code.exe".to_string()));
}

#[test]
fn fresh_spawn_failure_reports_the_os_error() {
    let mut phase = LaunchPhase::Probing;
    phase = step(phase, LaunchEvent::Probed(false), true);
    phase = step(phase, LaunchEvent::Spawned(Err("file not found".to_string())), true);
    assert_eq!(phase, LaunchPhase::Done(LaunchOutcome::SpawnFailed("file not found".to_string())));
    let r = outcome_result(&LaunchOutcome::SpawnFailed("file not found".to_string()), "x.exe");
    assert_eq!(r, Err("launch failed: file not found".to_string()));
}

#[test]
fn no_windowing_reports_already_running() {
    let phase = step(LaunchPhase::Probing, LaunchEvent::Probed(true), false);
    assert_eq!(phase, LaunchPhase::Done(LaunchOutcome::AlreadyRunning));
    let r = outcome_result(&LaunchOutcome::AlreadyRunning, "Code.exe");
    assert_eq!(r, Ok("Code.exe is already running".to_string()));
}

#[test]
fn activation_restores_a_minimized_window() {
    assert_eq!(
        activation_sequence(true),
        vec![
            ActivationStep::Restore,
            ActivationStep::RaiseTop,
            ActivationStep::MarkTopmost,
            ActivationStep::ClearTopmost,
            ActivationStep::FocusForeground,
        ]
    );
}

#[test]
fn activation_merely_shows_an_unminimized_window() {
    assert_eq!(
        activation_sequence(false),
        vec![
            ActivationStep::Show,
            ActivationStep::RaiseTop,
            ActivationStep::MarkTopmost,
            ActivationStep::ClearTopmost,
            ActivationStep::FocusForeground,
        ]
    );
}
