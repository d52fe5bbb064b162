//! Decisions over a snapshot of the desktop's top-level window titles.
//!
//! The binary enumerates the desktop's windows and hands this module the
//! list of their titles, in the order the window system reported them.
//! This module decides everything: which window (if any) is the console
//! window to hide, and whether the target application is still running.

use vstd::prelude::*;
use vstd::string::StrSliceExecFns;
use crate::text::{contains_ci, contains_pattern_ci, matches_at, str_eq_exact};

verus! {

/// The exact title of the console window the supervisor suppresses.
pub open spec fn console_title() -> Seq<char> {
    "Houdini Console"@
}

/// The application-name substring a live application window must carry.
pub open spec fn app_pattern() -> Seq<char> {
    "houdini"@
}

/// The edition substring a live application window must also carry; both
/// are required so that unrelated windows that merely mention the
/// application name (a document, a note) do not count as the application.
pub open spec fn edition_pattern() -> Seq<char> {
    "indie"@
}

/// A title counts as an application window when, up to ASCII case, it
/// contains both the application-name substring and the edition substring.
pub open spec fn title_matches(t: Seq<char>) -> bool {
    contains_ci(t, app_pattern()) && contains_ci(t, edition_pattern())
}

/// The application is considered running when some title in the snapshot
/// is an application-window title.
pub open spec fn target_running(titles: Seq<String>) -> bool {
    exists|k: int| 0 <= k < titles.len() && title_matches(titles[k]@)
}

/// Some title in the snapshot is exactly the console-window title.
pub open spec fn console_present(titles: Seq<String>) -> bool {
    exists|k: int| 0 <= k < titles.len() && titles[k]@ == console_title()
}

/// Does this title exactly equal the console-window title?
pub fn is_console_title(t: &str) -> (r: bool)
    ensures
        r == (t@ == console_title()),
{
    str_eq_exact(t, "Houdini Console")
}

/// Does this title mark a running application window?
pub fn is_app_title(t: &str) -> (r: bool)
    ensures
        r == title_matches(t@),
{
    contains_pattern_ci(t, "houdini") && contains_pattern_ci(t, "indie")
}

/// Picks the window to hide: the first title in the snapshot that exactly
/// equals the console-window title, if any. Zero-length titles are skipped
/// without running the comparison; they can never match the (non-empty)
/// console title.
pub fn console_window_index(titles: &Vec<String>) -> (r: Option<usize>)
    ensures
        match r {
            Some(i) => {
                &&& i < titles@.len()
                &&& titles@[i as int]@ == console_title()
                &&& forall|k: int| 0 <= k < i ==> titles@[k]@ != console_title()
            },
            None => !console_present(titles@),
        },
{
    proof {
        reveal_strlit("Houdini Console");
    }
    let mut i: usize = 0;
    while i < titles.len()
        invariant
            i <= titles@.len(),
            console_title().len() == 15,
            forall|k: int| 0 <= k < i ==> titles@[k]@ != console_title(),
        decreases titles@.len() - i,
    {
        let t: &String = &titles[i];
        if !t.as_str().is_empty() && is_console_title(t.as_str()) {
            return Some(i);
        }
        i += 1;
    }
    None
}

/// The liveness check over one snapshot: true exactly when some title in
/// it is an application-window title. A pure query of the snapshot: it has
/// no other effect, so two checks of the same snapshot agree (see
/// [`lemma_liveness_idempotent`]). Zero-length titles are skipped without
/// running the matcher; they can never contain the (non-empty) patterns.
pub fn is_target_running(titles: &Vec<String>) -> (r: bool)
    ensures
        r == target_running(titles@),
{
    let mut i: usize = 0;
    while i < titles.len()
        invariant
            i <= titles@.len(),
            forall|k: int| 0 <= k < i ==> !title_matches(titles@[k]@),
        decreases titles@.len() - i,
    {
        let t: &String = &titles[i];
        if !t.as_str().is_empty() && is_app_title(t.as_str()) {
            return true;
        }
        proof {
            lemma_empty_title_no_match();
        }
        i += 1;
    }
    false
}

/// A zero-length title never counts as an application window: the
/// application-name pattern is non-empty and cannot occur in it.
proof fn lemma_empty_title_no_match()
    ensures
        forall|t: Seq<char>| t.len() == 0 ==> !title_matches(t),
{
    reveal_strlit("houdini");
    assert forall|t: Seq<char>| t.len() == 0 implies !title_matches(t) by {
        assert(forall|i: int| !matches_at(t, app_pattern(), i));
    }
}

/// The liveness check is idempotent: two checks of the same snapshot, with
/// no window-system change in between, return the same answer.
pub proof fn lemma_liveness_idempotent(titles: Seq<String>, r1: bool, r2: bool)
    requires
        r1 == target_running(titles),
        r2 == target_running(titles),
    ensures
        r1 == r2,
{
}

} // verus!
