//! The launch-or-focus decision procedure, as an explicit state machine.
//!
//! The driver asks `action_for` what to do, performs the probe, the
//! locate-and-activate attempt or the spawn, and hands the observed result
//! back through `step`.  The machine decides: a running application with an
//! activatable window is switched to; a running application whose window
//! cannot be found or activated is spawned once more (many monitored
//! applications minimize to the notification area, and re-invoking the
//! launch command is the idiomatic way to surface them); an application
//! that is not running is spawned.  Where no windowing capability exists,
//! a running application is simply reported as already running.

use vstd::prelude::*;

verus! {

/// How a launch target is dispatched.
#[derive(Clone, Copy, PartialEq, Eq, Structural, Debug)]
pub enum TargetKind {
    /// Handed to the operating-system shell's generic "open" mechanism.
    ProtocolUri,
    /// Spawned directly as a child process.
    ExecutablePath,
}

/// A launch target is a protocol URI when it contains a colon, does not
/// start with a double quote, and contains no backslash.  The backslash
/// test is what keeps a quoted or plain Windows path with a drive-letter
/// colon out of the protocol branch.
pub open spec fn spec_is_protocol_target(t: Seq<char>) -> bool {
    t.contains(':') && !(t.len() > 0 && t[0] == '"') && !t.contains('\\')
}

/// Classifies a launch target as a protocol URI or an executable path.
pub fn classify_launch_target(target: &str) -> (k: TargetKind)
    ensures
        (k is ProtocolUri) == spec_is_protocol_target(target@),
        (k is ExecutablePath) == !spec_is_protocol_target(target@),
{
    let n = target.unicode_len();
    let mut has_colon: bool = false;
    let mut has_backslash: bool = false;
    let mut i: usize = 0;
    while i < n
        invariant
            i <= n,
            n == target@.len(),
            has_colon == (exists|j: int| 0 <= j < i && target@[j] == ':'),
            has_backslash == (exists|j: int| 0 <= j < i && target@[j] == '\\'),
        decreases n - i,
    {
        let c = target.get_char(i);
        if c == ':' {
            has_colon = true;
        }
        if c == '\\' {
            has_backslash = true;
        }
        i = i + 1;
    }
    let starts_quote = if n > 0 {
        target.get_char(0) == '"'
    } else {
        false
    };
    if has_colon && !starts_quote && !has_backslash {
        TargetKind::ProtocolUri
    } else {
        TargetKind::ExecutablePath
    }
}

/// The final word of a launch-or-focus run.
#[derive(PartialEq, Eq, Debug)]
pub enum LaunchOutcome {
    /// A window of the running application was activated.
    Switched,
    /// The application was spawned (freshly, or to surface a running one).
    Launched,
    /// Running, and no windowing capability exists to focus it.
    AlreadyRunning,
    /// The application was not running and the spawn failed; carries the
    /// operating system's error text.
    SpawnFailed(String),
    /// The window could not be focused and the fallback spawn also failed;
    /// carries the focus error.
    FocusFailed(String),
}

/// Where a launch-or-focus run stands.
#[derive(PartialEq, Eq, Debug)]
pub enum LaunchPhase {
    /// Asking the process probe whether the application runs.
    Probing,
    /// Locating and activating a window of the running application.
    Focusing,
    /// Spawning an application that was not running.
    Spawning,
    /// Spawning to surface an application whose window could not be
    /// focused; carries the focus error for the outcome if this too fails.
    SpawningAfterFocusFailure(String),
    /// Finished.
    Done(LaunchOutcome),
}

/// What the driver observed while performing the current phase's action.
#[derive(PartialEq, Eq, Debug)]
pub enum LaunchEvent {
    /// Whether the process probe found the executable running.
    Probed(bool),
    /// Whether a window was located and the activation sequence issued;
    /// the error text says what was missing.
    Focused(Result<(), String>),
    /// Whether the spawn succeeded; the error text is the operating
    /// system's.
    Spawned(Result<(), String>),
}

/// What the driver must do in a phase.
#[derive(Clone, Copy, PartialEq, Eq, Structural, Debug)]
pub enum LaunchAction {
    Probe,
    Focus,
    Spawn,
    Finish,
}

/// The transition relation of the launch-or-focus machine.  `windowing`
/// says whether the platform can locate and activate windows at all; an
/// event that does not belong to the phase leaves the phase unchanged.
pub open spec fn spec_step(phase: LaunchPhase, event: LaunchEvent, windowing: bool) -> LaunchPhase {
    match (phase, event) {
        (LaunchPhase::Probing, LaunchEvent::Probed(running)) => if !running {
            LaunchPhase::Spawning
        } else if windowing {
            LaunchPhase::Focusing
        } else {
            LaunchPhase::Done(LaunchOutcome::AlreadyRunning)
        },
        (LaunchPhase::Focusing, LaunchEvent::Focused(res)) => match res {
            Ok(_) => LaunchPhase::Done(LaunchOutcome::Switched),
            Err(e) => LaunchPhase::SpawningAfterFocusFailure(e),
        },
        (LaunchPhase::Spawning, LaunchEvent::Spawned(res)) => match res {
            Ok(_) => LaunchPhase::Done(LaunchOutcome::Launched),
            Err(e) => LaunchPhase::Done(LaunchOutcome::SpawnFailed(e)),
        },
        (LaunchPhase::SpawningAfterFocusFailure(fe), LaunchEvent::Spawned(res)) => match res {
            Ok(_) => LaunchPhase::Done(LaunchOutcome::Launched),
            Err(_) => LaunchPhase::Done(LaunchOutcome::FocusFailed(fe)),
        },
        (p, _) => p,
    }
}

/// Performs one transition of the launch-or-focus machine.
pub fn step(phase: LaunchPhase, event: LaunchEvent, windowing: bool) -> (next: LaunchPhase)
    ensures
        next == spec_step(phase, event, windowing),
{
    match (phase, event) {
        (LaunchPhase::Probing, LaunchEvent::Probed(running)) => {
            if !running {
                LaunchPhase::Spawning
            } else if windowing {
                LaunchPhase::Focusing
            } else {
                LaunchPhase::Done(LaunchOutcome::AlreadyRunning)
            }
        },
        (LaunchPhase::Focusing, LaunchEvent::Focused(res)) => match res {
            Ok(_) => LaunchPhase::Done(LaunchOutcome::Switched),
            Err(e) => LaunchPhase::SpawningAfterFocusFailure(e),
        },
        (LaunchPhase::Spawning, LaunchEvent::Spawned(res)) => match res {
            Ok(_) => LaunchPhase::Done(LaunchOutcome::Launched),
            Err(e) => LaunchPhase::Done(LaunchOutcome::SpawnFailed(e)),
        },
        (LaunchPhase::SpawningAfterFocusFailure(fe), LaunchEvent::Spawned(res)) => match res {
            Ok(_) => LaunchPhase::Done(LaunchOutcome::Launched),
            Err(_) => LaunchPhase::Done(LaunchOutcome::FocusFailed(fe)),
        },
        (p, _) => p,
    }
}

/// What the driver must do for each phase.
pub open spec fn spec_action_for(phase: LaunchPhase) -> LaunchAction {
    match phase {
        LaunchPhase::Probing => LaunchAction::Probe,
        LaunchPhase::Focusing => LaunchAction::Focus,
        LaunchPhase::Spawning => LaunchAction::Spawn,
        LaunchPhase::SpawningAfterFocusFailure(_) => LaunchAction::Spawn,
        LaunchPhase::Done(_) => LaunchAction::Finish,
    }
}

/// What the driver must do in this phase.
pub fn action_for(phase: &LaunchPhase) -> (a: LaunchAction)
    ensures
        a == spec_action_for(*phase),
{
    match phase {
        LaunchPhase::Probing => LaunchAction::Probe,
        LaunchPhase::Focusing => LaunchAction::Focus,
        LaunchPhase::Spawning => LaunchAction::Spawn,
        LaunchPhase::SpawningAfterFocusFailure(_) => LaunchAction::Spawn,
        LaunchPhase::Done(_) => LaunchAction::Finish,
    }
}

/// An application that is not running is spawned exactly once, with or
/// without windowing: probing answers "not running", the machine spawns,
/// and that one spawn ends the run — `Launched` on success, the operating
/// system's error otherwise.
pub proof fn lemma_not_running_spawns_once(
    spawn_result: Result<(), String>,
    windowing: bool,
)
    ensures
        spec_step(LaunchPhase::Probing, LaunchEvent::Probed(false), windowing)
            == LaunchPhase::Spawning,
        spec_action_for(LaunchPhase::Spawning) == LaunchAction::Spawn,
        spec_step(LaunchPhase::Spawning, LaunchEvent::Spawned(spawn_result), windowing) is Done,
        spawn_result is Ok ==> spec_step(
            LaunchPhase::Spawning,
            LaunchEvent::Spawned(spawn_result),
            windowing,
        ) == LaunchPhase::Done(LaunchOutcome::Launched),
        spawn_result matches Err(e) ==> spec_step(
            LaunchPhase::Spawning,
            LaunchEvent::Spawned(spawn_result),
            windowing,
        ) == LaunchPhase::Done(LaunchOutcome::SpawnFailed(e)),
{
}

/// A successful focus finishes the run as `Switched` with no spawn: the
/// machine goes straight from `Focusing` to `Done`.
pub proof fn lemma_switch_spawns_nothing(windowing: bool)
    ensures
        spec_step(LaunchPhase::Focusing, LaunchEvent::Focused(Ok(())), windowing)
            == LaunchPhase::Done(LaunchOutcome::Switched),
{
}

/// After a focus failure exactly one spawn is attempted: the failure
/// leads to a spawning phase, and whatever that one spawn returns, the
/// machine is done — `Launched` on success, the focus failure otherwise.
pub proof fn lemma_one_spawn_after_focus_failure(
    focus_error: String,
    spawn_result: Result<(), String>,
    windowing: bool,
)
    ensures
        spec_step(
            LaunchPhase::Focusing,
            LaunchEvent::Focused(Err(focus_error)),
            windowing,
        ) == LaunchPhase::SpawningAfterFocusFailure(focus_error),
        spec_action_for(LaunchPhase::SpawningAfterFocusFailure(focus_error))
            == LaunchAction::Spawn,
        spec_step(
            LaunchPhase::SpawningAfterFocusFailure(focus_error),
            LaunchEvent::Spawned(spawn_result),
            windowing,
        ) is Done,
        spawn_result is Ok ==> spec_step(
            LaunchPhase::SpawningAfterFocusFailure(focus_error),
            LaunchEvent::Spawned(spawn_result),
            windowing,
        ) == LaunchPhase::Done(LaunchOutcome::Launched),
        spawn_result is Err ==> spec_step(
            LaunchPhase::SpawningAfterFocusFailure(focus_error),
            LaunchEvent::Spawned(spawn_result),
            windowing,
        ) == LaunchPhase::Done(LaunchOutcome::FocusFailed(focus_error)),
{
}

/// Once done, the machine stays done: no event moves it out of `Done`.
pub proof fn lemma_done_is_terminal(
    outcome: LaunchOutcome,
    event: LaunchEvent,
    windowing: bool,
)
    ensures
        spec_step(LaunchPhase::Done(outcome), event, windowing) == LaunchPhase::Done(outcome),
{
}

/// The caller-facing result: a success message or an error message built
/// from the outcome and the process name.
pub fn outcome_result(outcome: &LaunchOutcome, process_name: &str) -> (r: Result<String, String>)
    ensures
        outcome is Switched ==> (r matches Ok(m) && m@ == "switched to "@ + process_name@),
        outcome is Launched ==> (r matches Ok(m) && m@ == "launched "@ + process_name@),
        outcome is AlreadyRunning ==> (r matches Ok(m) && m@ == process_name@
            + " is already running"@),
        outcome matches LaunchOutcome::SpawnFailed(e) ==> (r matches Err(m) && m@
            == "launch failed: "@ + e@),
        outcome matches LaunchOutcome::FocusFailed(e) ==> (r matches Err(m) && m@
            == "window switch failed: "@ + e@),
{
    match outcome {
        LaunchOutcome::Switched => Ok("switched to ".to_owned().concat(process_name)),
        LaunchOutcome::Launched => Ok("launched ".to_owned().concat(process_name)),
        LaunchOutcome::AlreadyRunning => Ok(
            process_name.to_owned().concat(" is already running"),
        ),
        LaunchOutcome::SpawnFailed(e) => Err("launch failed: ".to_owned().concat(e.as_str())),
        LaunchOutcome::FocusFailed(e) => Err(
            "window switch failed: ".to_owned().concat(e.as_str()),
        ),
    }
}

} // verus!
