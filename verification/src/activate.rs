//! The window activator's plan: the fixed best-effort call sequence that
//! reliably brings a located window to the foreground.
//!
//! The third and fourth steps — marking the window topmost and immediately
//! clearing the mark — exist to defeat foreground-activation-lock
//! heuristics that silently ignore a plain foreground request from a
//! background process.  Each step's individual failure is ignored by the
//! driver; the sequence never aborts early.

use vstd::prelude::*;

verus! {

/// One operating-system call of the activation sequence.
#[derive(Clone, Copy, PartialEq, Eq, Structural, Debug)]
pub enum ActivationStep {
    /// Restore a minimized window to its previous size and position.
    Restore,
    /// Show the window without changing its size or minimized state.
    Show,
    /// Raise the window above its siblings in z-order.
    RaiseTop,
    /// Temporarily mark the window topmost.
    MarkTopmost,
    /// Clear the topmost mark, keeping the window above non-topmost ones.
    ClearTopmost,
    /// Request foreground and input-focus assignment.
    FocusForeground,
}

/// The five activation steps, in order, for a window that is or is not
/// currently minimized: a minimized window is restored, any other window
/// is merely shown; then it is raised, briefly marked topmost, unmarked,
/// and given the foreground.
pub fn activation_sequence(minimized: bool) -> (r: Vec<ActivationStep>)
    ensures
        r@ == seq![
            if minimized {
                ActivationStep::Restore
            } else {
                ActivationStep::Show
            },
            ActivationStep::RaiseTop,
            ActivationStep::MarkTopmost,
            ActivationStep::ClearTopmost,
            ActivationStep::FocusForeground,
        ],
{
    let mut r: Vec<ActivationStep> = Vec::new();
    if minimized {
        r.push(ActivationStep::Restore);
    } else {
        r.push(ActivationStep::Show);
    }
    r.push(ActivationStep::RaiseTop);
    r.push(ActivationStep::MarkTopmost);
    r.push(ActivationStep::ClearTopmost);
    r.push(ActivationStep::FocusForeground);
    proof {
        assert(r@ =~= seq![
            if minimized {
                ActivationStep::Restore
            } else {
                ActivationStep::Show
            },
            ActivationStep::RaiseTop,
            ActivationStep::MarkTopmost,
            ActivationStep::ClearTopmost,
            ActivationStep::FocusForeground,
        ]);
    }
    r
}

} // verus!
