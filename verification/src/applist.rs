//! The caller-facing application list: each registry entry together with
//! its current running status and, if present, the absolute path of its
//! icon file.
//!
//! Whether an icon file exists on disk is the embedding program's business;
//! this module only builds the expected icon file name, normalizes the
//! resolved path, and assembles the list.

use crate::probe::{spec_is_running, ProcessSnapshot};
use crate::registry::MonitoredApp;
use vstd::prelude::*;

verus! {

/// One row of the application list handed to the caller.
pub struct AppInfo {
    pub process_name: String,
    pub display_name: String,
    pub launch_path: String,
    pub is_running: bool,
    pub icon_path: Option<String>,
}

/// The icon file expected for a display name: `<display_name>.png`.
pub fn icon_file_name(display_name: &str) -> (r: String)
    ensures
        r@ == display_name@ + ".png"@,
{
    display_name.to_owned().concat(".png")
}

/// A canonicalized path with any extended-length prefix (backslash,
/// backslash, question mark, backslash) removed from its front.
pub open spec fn spec_strip_extended_prefix(p: Seq<char>) -> Seq<char> {
    if p.len() >= 4 && p[0] == '\\' && p[1] == '\\' && p[2] == '?' && p[3] == '\\' {
        p.subrange(4, p.len() as int)
    } else {
        p
    }
}

/// Removes the extended-length path prefix, if the path starts with one.
pub fn strip_extended_length_prefix(path: &str) -> (r: String)
    ensures
        r@ == spec_strip_extended_prefix(path@),
{
    let n = path.unicode_len();
    if n >= 4 && path.get_char(0) == '\\' && path.get_char(1) == '\\' && path.get_char(2) == '?'
        && path.get_char(3) == '\\' {
        let rest = path.substring_char(4, n);
        rest.to_owned()
    } else {
        path.to_owned()
    }
}

fn clone_opt_string(o: &Option<String>) -> (r: Option<String>)
    ensures
        r == *o,
{
    match o {
        Some(s) => Some(s.clone()),
        None => None,
    }
}

/// Builds the application list: one row per registry entry, in registry
/// order, with the entry's fields, its running status read from the
/// snapshot by exact executable-name equality, and the icon path the
/// embedding program resolved for it (`None` where no icon file exists).
pub fn get_app_list_with_status(
    apps: &Vec<MonitoredApp>,
    snapshot: &ProcessSnapshot,
    icons: &Vec<Option<String>>,
) -> (r: Vec<AppInfo>)
    requires
        icons@.len() == apps@.len(),
    ensures
        r@.len() == apps@.len(),
        forall|i: int|
            0 <= i < r@.len() ==> {
                &&& r@[i].process_name@ == apps@[i]@.0
                &&& r@[i].display_name@ == apps@[i]@.1
                &&& r@[i].launch_path@ == apps@[i]@.2
                &&& r@[i].is_running == spec_is_running(snapshot@, apps@[i]@.0)
                &&& r@[i].icon_path == icons@[i]
            },
{
    let mut r: Vec<AppInfo> = Vec::new();
    let mut i: usize = 0;
    while i < apps.len()
        invariant
            i <= apps@.len(),
            icons@.len() == apps@.len(),
            r@.len() == i,
            forall|j: int| 0 <= j < i ==> #[trigger] r@[j].process_name@ == apps@[j]@.0,
            forall|j: int| 0 <= j < i ==> #[trigger] r@[j].display_name@ == apps@[j]@.1,
            forall|j: int| 0 <= j < i ==> #[trigger] r@[j].launch_path@ == apps@[j]@.2,
            forall|j: int|
                0 <= j < i ==> #[trigger] r@[j].is_running == spec_is_running(
                    snapshot@,
                    apps@[j]@.0,
                ),
            forall|j: int| 0 <= j < i ==> #[trigger] r@[j].icon_path == icons@[j],
        decreases apps@.len() - i,
    {
        let app = &apps[i];
        let running = snapshot.is_running(app.process_executable_name.as_str());
        let process_name = app.process_executable_name.clone();
        let display_name = app.display_name.clone();
        let launch_path = app.launch_target.clone();
        let icon_path = clone_opt_string(&icons[i]);
        let ghost pre = r@;
        r.push(
            AppInfo {
                process_name,
                display_name,
                launch_path,
                is_running: running,
                icon_path,
            },
        );
        proof {
            assert forall|j: int| 0 <= j < i + 1 implies #[trigger] r@[j].display_name@
                == apps@[j]@.1 by {
                if j < i {
                    assert(r@[j] == pre[j]);
                    assert(pre[j].display_name@ == apps@[j]@.1);
                } else {
                    assert(r@[j].display_name@ == apps@[i as int]@.1);
                }
            }
        }
        i = i + 1;
    }
    r
}

} // verus!
