//! The window locator: given the top-level windows in operating-system
//! enumeration order and the process IDs of the target application, pick
//! the window to bring forward.
//!
//! The policy is deliberately greedy and order-dependent: the first
//! visible matching window with a title wins outright; failing that, the
//! first visible matching window without a title is kept as a fallback
//! (later untitled matches never replace it).  It makes no attempt to find
//! the "real" main window among several candidates.

use vstd::prelude::*;

verus! {

/// One top-level window as the operating system enumerates it.
#[derive(Clone, Copy, PartialEq, Eq, Structural, Debug)]
pub struct EnumeratedWindow {
    /// Opaque platform window reference.
    pub handle: u64,
    /// The process that owns the window.
    pub owner_pid: u32,
    /// Whether the window is currently visible.
    pub visible: bool,
    /// Whether the window carries a non-empty title.
    pub has_title: bool,
}

/// The chosen window: what the activator needs of it.
#[derive(Clone, Copy, PartialEq, Eq, Structural, Debug)]
pub struct WindowCandidate {
    pub handle: u64,
    pub has_title: bool,
}

/// A window counts only when it is visible and owned by one of the target
/// processes.
pub open spec fn spec_window_matches(w: EnumeratedWindow, pids: Seq<u32>) -> bool {
    w.visible && pids.contains(w.owner_pid)
}

/// The selection policy over the enumeration order: the first titled
/// visible match if one exists, otherwise the first visible match,
/// otherwise none.
pub open spec fn spec_locate(ws: Seq<EnumeratedWindow>, pids: Seq<u32>) -> Option<
    EnumeratedWindow,
>
    decreases ws.len(),
{
    if ws.len() == 0 {
        None
    } else {
        let w = ws[0];
        let rest = spec_locate(ws.subrange(1, ws.len() as int), pids);
        if spec_window_matches(w, pids) && w.has_title {
            Some(w)
        } else if spec_window_matches(w, pids) {
            match rest {
                Some(w2) => if w2.has_title {
                    Some(w2)
                } else {
                    Some(w)
                },
                None => Some(w),
            }
        } else {
            rest
        }
    }
}

/// How a fallback already in hand combines with what the rest of the
/// enumeration would select: a titled selection from the rest wins, and
/// anything else loses to the fallback.
pub(crate) open spec fn spec_merge(fb: Option<EnumeratedWindow>, rest: Option<EnumeratedWindow>) -> Option<
    EnumeratedWindow,
> {
    match fb {
        Some(f) => match rest {
            Some(w2) => if w2.has_title {
                Some(w2)
            } else {
                Some(f)
            },
            None => Some(f),
        },
        None => rest,
    }
}

/// Whether some window in the sequence is a visible, titled match.
pub open spec fn spec_has_titled_match(ws: Seq<EnumeratedWindow>, pids: Seq<u32>) -> bool {
    exists|i: int| 0 <= i < ws.len() && spec_window_matches(ws[i], pids) && ws[i].has_title
}

proof fn lemma_no_titled_match_in_tail(ws: Seq<EnumeratedWindow>, pids: Seq<u32>)
    requires
        ws.len() > 0,
        !spec_has_titled_match(ws, pids),
    ensures
        !spec_has_titled_match(ws.subrange(1, ws.len() as int), pids),
{
    let tail = ws.subrange(1, ws.len() as int);
    if spec_has_titled_match(tail, pids) {
        let k = choose|k: int|
            0 <= k < tail.len() && spec_window_matches(tail[k], pids) && tail[k].has_title;
        assert(ws[k + 1] == tail[k]);
        assert(spec_has_titled_match(ws, pids));
    }
}

proof fn lemma_locate_untitled_when_no_titled_match(ws: Seq<EnumeratedWindow>, pids: Seq<u32>)
    requires
        !spec_has_titled_match(ws, pids),
    ensures
        match spec_locate(ws, pids) {
            Some(w) => !w.has_title,
            None => true,
        },
    decreases ws.len(),
{
    if ws.len() > 0 {
        let tail = ws.subrange(1, ws.len() as int);
        lemma_no_titled_match_in_tail(ws, pids);
        lemma_locate_untitled_when_no_titled_match(tail, pids);
        if spec_window_matches(ws[0], pids) && ws[0].has_title {
            assert(spec_has_titled_match(ws, pids));
        }
    }
}

/// Where no visible window of a target process exists at all, the locator
/// selects nothing.
pub proof fn lemma_locate_none_without_match(ws: Seq<EnumeratedWindow>, pids: Seq<u32>)
    requires
        forall|i: int| 0 <= i < ws.len() ==> !spec_window_matches(ws[i], pids),
    ensures
        spec_locate(ws, pids) is None,
    decreases ws.len(),
{
    if ws.len() > 0 {
        let tail = ws.subrange(1, ws.len() as int);
        assert forall|k: int| 0 <= k < tail.len() implies !spec_window_matches(
            tail[k],
            pids,
        ) by {
            assert(tail[k] == ws[k + 1]);
        }
        lemma_locate_none_without_match(tail, pids);
        assert(!spec_window_matches(ws[0], pids));
    }
}

/// The greedy choice, stated over the whole enumeration: the first
/// visible, titled match — the one before which no other visible, titled
/// match stands — is what the locator selects, whatever follows it.
pub proof fn lemma_locate_picks_first_titled_match(
    ws: Seq<EnumeratedWindow>,
    pids: Seq<u32>,
    i: int,
)
    requires
        0 <= i < ws.len(),
        spec_window_matches(ws[i], pids),
        ws[i].has_title,
        forall|j: int|
            0 <= j < i ==> !(spec_window_matches(ws[j], pids) && ws[j].has_title),
    ensures
        spec_locate(ws, pids) == Some(ws[i]),
    decreases ws.len(),
{
    if i > 0 {
        let tail = ws.subrange(1, ws.len() as int);
        assert(tail[i - 1] == ws[i]);
        assert forall|j: int| 0 <= j < i - 1 implies !(spec_window_matches(tail[j], pids)
            && tail[j].has_title) by {
            assert(tail[j] == ws[j + 1]);
        }
        lemma_locate_picks_first_titled_match(tail, pids, i - 1);
        assert(!(spec_window_matches(ws[0], pids) && ws[0].has_title));
    }
}

/// The fallback, stated over the whole enumeration: where no visible match
/// anywhere has a title, the first visible match — necessarily untitled —
/// is what the locator selects; later untitled matches never replace it.
pub proof fn lemma_locate_falls_back_to_first_match(
    ws: Seq<EnumeratedWindow>,
    pids: Seq<u32>,
    i: int,
)
    requires
        0 <= i < ws.len(),
        spec_window_matches(ws[i], pids),
        !spec_has_titled_match(ws, pids),
        forall|j: int| 0 <= j < i ==> !spec_window_matches(ws[j], pids),
    ensures
        spec_locate(ws, pids) == Some(ws[i]),
        !ws[i].has_title,
    decreases ws.len(),
{
    if ws[i].has_title {
        assert(spec_has_titled_match(ws, pids));
    }
    let tail = ws.subrange(1, ws.len() as int);
    lemma_no_titled_match_in_tail(ws, pids);
    if i == 0 {
        lemma_locate_untitled_when_no_titled_match(tail, pids);
    } else {
        assert(tail[i - 1] == ws[i]);
        assert forall|j: int| 0 <= j < i - 1 implies !spec_window_matches(tail[j], pids) by {
            assert(tail[j] == ws[j + 1]);
        }
        lemma_locate_falls_back_to_first_match(tail, pids, i - 1);
        assert(!spec_window_matches(ws[0], pids));
    }
}

/// Whether `pid` is among the target process IDs.
fn contains_pid(pids: &Vec<u32>, pid: u32) -> (r: bool)
    ensures
        r == pids@.contains(pid),
{
    let mut i: usize = 0;
    while i < pids.len()
        invariant
            i <= pids@.len(),
            forall|j: int| 0 <= j < i ==> pids@[j] != pid,
        decreases pids@.len() - i,
    {
        if pids[i] == pid {
            return true;
        }
        i = i + 1;
    }
    false
}

/// Selects the window to activate from the enumerated top-level windows,
/// by the greedy first-titled / first-fallback policy.
pub fn locate(windows: &Vec<EnumeratedWindow>, pids: &Vec<u32>) -> (r: Option<WindowCandidate>)
    ensures
        match spec_locate(windows@, pids@) {
            Some(w) => r == Some(WindowCandidate { handle: w.handle, has_title: w.has_title }),
            None => r is None,
        },
{
    let ghost total = spec_locate(windows@, pids@);
    let n = windows.len();
    let mut fallback: Option<EnumeratedWindow> = None;
    let mut i: usize = 0;
    proof {
        assert(windows@.subrange(0, n as int) =~= windows@);
    }
    while i < n
        invariant
            i <= n,
            n == windows@.len(),
            total == spec_locate(windows@, pids@),
            spec_merge(fallback, spec_locate(windows@.subrange(i as int, n as int), pids@))
                == total,
            fallback matches Some(f) ==> !f.has_title,
        decreases n - i,
    {
        proof {
            let sfx = windows@.subrange(i as int, n as int);
            assert(sfx[0] == windows@[i as int]);
            assert(sfx.subrange(1, sfx.len() as int) =~= windows@.subrange(
                i + 1,
                n as int,
            ));
        }
        let w = windows[i];
        if w.visible && contains_pid(pids, w.owner_pid) {
            if w.has_title {
                return Some(WindowCandidate { handle: w.handle, has_title: w.has_title });
            }
            if fallback.is_none() {
                fallback = Some(w);
            }
        }
        i = i + 1;
    }
    proof {
        assert(windows@.subrange(i as int, n as int).len() == 0);
    }
    match fallback {
        Some(f) => Some(WindowCandidate { handle: f.handle, has_title: f.has_title }),
        None => None,
    }
}

} // verus!
