//! The fullscreen test: does a process own a window that covers the primary
//! display?
//!
//! The window server is asked elsewhere. What this module receives is the list
//! of on-screen windows, each reduced to the two things the test reads.

use vstd::prelude::*;

verus! {

/// One on-screen window, as the window server lists it.
#[derive(Clone, Copy, Debug, PartialEq, Eq)]
pub struct WindowInfo {
    /// The process that owns the window; `None` where the entry names no owner.
    pub owner_pid: Option<i32>,
    /// `None` where the entry carries no bounds. Otherwise whether the bounds
    /// match those of the primary display, within the tolerance, on all four
    /// of x, y, width and height.
    pub covers_display: Option<bool>,
}

impl WindowInfo {
    /// The window is owned by `pid` and covers the primary display.
    pub open spec fn is_fullscreen_of(self, pid: i32) -> bool {
        self.owner_pid == Some(pid) && self.covers_display == Some(true)
    }

    /// Executable form of [`WindowInfo::is_fullscreen_of`].
    pub fn fullscreen_of(&self, pid: i32) -> (yes: bool)
        ensures
            yes == self.is_fullscreen_of(pid),
    {
        let owned = match self.owner_pid {
            Some(owner) => owner == pid,
            None => false,
        };
        let covers = match self.covers_display {
            Some(c) => c,
            None => false,
        };
        owned && covers
    }
}

/// Some window in the list is owned by `pid` and covers the primary display.
pub open spec fn any_fullscreen(windows: Seq<WindowInfo>, pid: i32) -> bool {
    exists|i: int| 0 <= i < windows.len() && #[trigger] windows[i].is_fullscreen_of(pid)
}

/// What the fullscreen test answers for a query that may have failed: a failed
/// query (`None`) counts as "not fullscreen", as does a list without a
/// matching window.
pub open spec fn fullscreen_answer(windows: Option<&Vec<WindowInfo>>, pid: i32) -> bool {
    match windows {
        Some(list) => any_fullscreen(list@, pid),
        None => false,
    }
}

/// Whether process `pid` has a fullscreen window among `windows`, the
/// on-screen windows the window server listed, or `None` where the query
/// failed.
///
/// Entries without an owner, entries of other processes and entries without
/// bounds never count. The answer errs toward "not fullscreen": nothing here
/// can make the caller believe in a stream that is not there.
pub fn has_fullscreen_window(pid: i32, windows: Option<&Vec<WindowInfo>>) -> (found: bool)
    ensures
        found == fullscreen_answer(windows, pid),
{
    let list = match windows {
        Some(list) => list,
        None => {
            return false;
        },
    };
    let mut i: usize = 0;
    while i < list.len()
        invariant
            windows == Some(list),
            i <= list.len(),
            forall|j: int| 0 <= j < i ==> !(#[trigger] list@[j].is_fullscreen_of(pid)),
        decreases list.len() - i,
    {
        if list[i].fullscreen_of(pid) {
            assert(list@[i as int].is_fullscreen_of(pid));
            return true;
        }
        i = i + 1;
    }
    false
}

} // verus!
