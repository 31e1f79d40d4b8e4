//! The process probe: a point-in-time snapshot of the process table, and
//! the exact-name queries the launcher asks of it.
//!
//! A snapshot is taken fresh on every query and never cached.  Matching is
//! exact string equality against the executable name the process table
//! reports — not the path, not case-folded.  Probing never fails: an empty
//! snapshot simply answers "not running".

use crate::text::str_eq;
use vstd::prelude::*;

verus! {

/// A point-in-time mapping from process ID to reported executable name.
pub struct ProcessSnapshot {
    pub entries: Vec<(u32, String)>,
}

impl View for ProcessSnapshot {
    type V = Seq<(u32, Seq<char>)>;

    open spec fn view(&self) -> Self::V {
        Seq::new(self.entries@.len(), |i: int| (self.entries@[i].0, self.entries@[i].1@))
    }
}

/// Whether a process with exactly this executable name is in the snapshot.
pub open spec fn spec_is_running(snap: Seq<(u32, Seq<char>)>, name: Seq<char>) -> bool {
    exists|i: int| 0 <= i < snap.len() && snap[i].1 == name
}

/// The process IDs of the snapshot entries whose executable name is
/// exactly `name`, in snapshot order.
pub open spec fn spec_pids_for(snap: Seq<(u32, Seq<char>)>, name: Seq<char>) -> Seq<u32>
    decreases snap.len(),
{
    if snap.len() == 0 {
        Seq::empty()
    } else {
        let rest = spec_pids_for(snap.subrange(1, snap.len() as int), name);
        if snap[0].1 == name {
            seq![snap[0].0] + rest
        } else {
            rest
        }
    }
}

/// Probing never fails: an empty process table answers "not running" for
/// every name.
pub proof fn lemma_empty_snapshot_not_running(name: Seq<char>)
    ensures
        !spec_is_running(Seq::empty(), name),
{
}

/// A name is running exactly when it owns at least one process ID.
pub proof fn lemma_running_iff_some_pid(snap: Seq<(u32, Seq<char>)>, name: Seq<char>)
    ensures
        spec_is_running(snap, name) <==> spec_pids_for(snap, name).len() > 0,
    decreases snap.len(),
{
    if snap.len() > 0 {
        let rest = snap.subrange(1, snap.len() as int);
        lemma_running_iff_some_pid(rest, name);
        if snap[0].1 == name {
        } else {
            assert(spec_is_running(snap, name) ==> spec_is_running(rest, name)) by {
                if spec_is_running(snap, name) {
                    let i = choose|i: int| 0 <= i < snap.len() && snap[i].1 == name;
                    assert(rest[i - 1] == snap[i]);
                }
            }
            assert(spec_is_running(rest, name) ==> spec_is_running(snap, name)) by {
                if spec_is_running(rest, name) {
                    let i = choose|i: int| 0 <= i < rest.len() && rest[i].1 == name;
                    assert(snap[i + 1] == rest[i]);
                }
            }
        }
    }
}

impl ProcessSnapshot {
    /// A snapshot built from explicit (process ID, executable name) pairs.
    pub fn from_entries(entries: Vec<(u32, String)>) -> (r: ProcessSnapshot)
        ensures
            r@.len() == entries@.len(),
            forall|i: int|
                0 <= i < entries@.len() ==> r@[i] == (entries@[i].0, entries@[i].1@),
    {
        ProcessSnapshot { entries }
    }

    /// Relies on sysinfo's `System::refresh_processes` and per-process
    /// `pid`/`name` accessors: a fresh full enumeration of the operating
    /// system's process table.  What it holds depends on the machine's
    /// state at the moment of the call, so nothing is promised of the
    /// entries.
    #[verifier::external_body]
    pub fn refresh() -> (r: ProcessSnapshot) {
        let mut sys = sysinfo::System::new();
        sys.refresh_processes(sysinfo::ProcessesToUpdate::All, true);
        let mut entries: Vec<(u32, String)> = Vec::new();
        for p in sys.processes().values() {
            entries.push((p.pid().as_u32(), p.name().to_string_lossy().into_owned()));
        }
        ProcessSnapshot { entries }
    }

    /// Whether an executable with exactly this name is running in the
    /// snapshot.
    pub fn is_running(&self, name: &str) -> (r: bool)
        ensures
            r == spec_is_running(self@, name@),
    {
        let mut i: usize = 0;
        while i < self.entries.len()
            invariant
                i <= self.entries@.len(),
                self@.len() == self.entries@.len(),
                forall|j: int| 0 <= j < i ==> self@[j].1 != name@,
            decreases self.entries@.len() - i,
        {
            if str_eq(self.entries[i].1.as_str(), name) {
                assert(self@[i as int].1 == name@);
                return true;
            }
            i = i + 1;
        }
        false
    }

    /// The process IDs whose executable name is exactly `name`, in
    /// snapshot order.
    pub fn pids_for(&self, name: &str) -> (r: Vec<u32>)
        ensures
            r@ == spec_pids_for(self@, name@),
    {
        let mut r: Vec<u32> = Vec::new();
        let mut i: usize = 0;
        proof {
            assert(self@.subrange(0, self@.len() as int) =~= self@);
            assert(r@ =~= Seq::<u32>::empty());
            lemma_pids_prefix(self@, name@, 0, r@);
        }
        let ghost total = spec_pids_for(self@, name@);
        let mut k: usize = 0;
        while k < self.entries.len()
            invariant
                k <= self.entries@.len(),
                self@.len() == self.entries@.len(),
                total == spec_pids_for(self@, name@),
                r@ + spec_pids_for(self@.subrange(k as int, self@.len() as int), name@)
                    == total,
            decreases self.entries@.len() - k,
        {
            proof {
                let sfx = self@.subrange(k as int, self@.len() as int);
                assert(sfx[0] == self@[k as int]);
                assert(sfx.subrange(1, sfx.len() as int) =~= self@.subrange(
                    k + 1,
                    self@.len() as int,
                ));
            }
            let ghost pre = r@;
            if str_eq(self.entries[k].1.as_str(), name) {
                r.push(self.entries[k].0);
                proof {
                    assert(r@ =~= pre + seq![self@[k as int].0]);
                    assert((pre + seq![self@[k as int].0]) + spec_pids_for(
                        self@.subrange(k + 1, self@.len() as int),
                        name@,
                    ) =~= pre + (seq![self@[k as int].0] + spec_pids_for(
                        self@.subrange(k + 1, self@.len() as int),
                        name@,
                    )));
                }
            }
            k = k + 1;
        }
        proof {
            assert(self@.subrange(k as int, self@.len() as int).len() == 0);
            assert(r@ + Seq::<u32>::empty() =~= r@);
        }
        r
    }
}

proof fn lemma_pids_prefix(snap: Seq<(u32, Seq<char>)>, name: Seq<char>, k: int, acc: Seq<u32>)
    requires
        k == 0,
        acc.len() == 0,
    ensures
        acc + spec_pids_for(snap.subrange(0, snap.len() as int), name) == spec_pids_for(
            snap,
            name,
        ),
{
    assert(snap.subrange(0, snap.len() as int) =~= snap);
    assert(acc + spec_pids_for(snap, name) =~= spec_pids_for(snap, name));
}

} // verus!
