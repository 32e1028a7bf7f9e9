//! The window that a run follows: is it still there, and does it have the focus?

use vstd::prelude::*;

use crate::timing::{duration_since, elapsed};

verus! {

/// Time between two validity checks: two seconds.
pub const CHECK_INTERVAL: u128 = 2000000000;

/// The window that a run follows.
pub struct WindowTracker {
    /// Handle of the target window.
    pub hwnd: isize,
    /// What to search for when the handle becomes invalid.
    pub process_name: String,
    /// When the handle was last checked.
    pub last_check: u128,
    /// Time between two checks, so that not every frame pays for one.
    pub check_interval: u128,
    /// Whether the window has had the focus at least once.
    pub ever_focused: bool,
    /// Whether a search compares whole titles.
    pub use_exact_match: bool,
}

/// The tracked window, with the name as a sequence of characters.
pub struct TrackerModel {
    pub hwnd: isize,
    pub process_name: Seq<char>,
    pub last_check: u128,
    pub check_interval: u128,
    pub ever_focused: bool,
    pub use_exact_match: bool,
}

impl View for WindowTracker {
    type V = TrackerModel;

    open spec fn view(&self) -> TrackerModel {
        TrackerModel {
            hwnd: self.hwnd,
            process_name: self.process_name@,
            last_check: self.last_check,
            check_interval: self.check_interval,
            ever_focused: self.ever_focused,
            use_exact_match: self.use_exact_match,
        }
    }
}

/// How far a validity check has come.
#[derive(Clone, Copy, Debug, PartialEq, Eq, Structural)]
pub enum WindowCheck {
    /// The check is over: is there a window to follow?
    Settled(bool),
    /// The system has to be asked whether the handle is valid.
    Probe,
    /// The handle is invalid, so the window has to be searched for.
    Search,
}

impl TrackerModel {
    /// A window that was just picked.
    pub open spec fn fresh(
        hwnd: isize,
        process_name: Seq<char>,
        use_exact_match: bool,
        now: u128,
    ) -> Self {
        TrackerModel {
            hwnd,
            process_name,
            last_check: now,
            check_interval: CHECK_INTERVAL,
            ever_focused: false,
            use_exact_match,
        }
    }

    /// Whether a whole check interval has passed since the last check.
    pub open spec fn due(self, now: u128) -> bool {
        elapsed(now as int, self.last_check as int) >= self.check_interval
    }

    /// After a check was asked for at `now`.
    pub open spec fn after_check(self, now: u128) -> Self {
        if self.due(now) {
            TrackerModel { last_check: now, ..self }
        } else {
            self
        }
    }

    /// What a check at `now` does first.
    pub open spec fn check(self, now: u128) -> WindowCheck {
        if self.due(now) {
            WindowCheck::Probe
        } else {
            WindowCheck::Settled(true)
        }
    }

    /// After a search: follow what was found.
    pub open spec fn after_search(self, found: Option<isize>) -> Self {
        match found {
            Some(hwnd) => TrackerModel { hwnd, ..self },
            None => self,
        }
    }

    /// Whether the followed window is the one in the foreground.
    pub open spec fn focused(self, foreground: isize) -> bool {
        foreground == self.hwnd
    }

    /// After the foreground window was read.
    pub open spec fn after_focus(self, foreground: isize) -> Self {
        TrackerModel { ever_focused: self.ever_focused || self.focused(foreground), ..self }
    }
}

impl WindowTracker {
    /// Follows a window; a search for it accepts a part of a title.
    pub fn new(hwnd: isize, process_name: &str, now: u128) -> (t: Self)
        ensures
            t@ == TrackerModel::fresh(hwnd, process_name@, false, now),
            t.hwnd == hwnd,
            t.process_name@ == process_name@,
            t.last_check == now,
            t.check_interval == 2000000000,
            !t.ever_focused,
            !t.use_exact_match,
    {
        Self::new_with_exact_match(hwnd, process_name, false, now)
    }

    /// Follows a window, with a choice of how a search compares titles.
    pub fn new_with_exact_match(
        hwnd: isize,
        process_name: &str,
        use_exact_match: bool,
        now: u128,
    ) -> (t: Self)
        ensures
            t@ == TrackerModel::fresh(hwnd, process_name@, use_exact_match, now),
            t.hwnd == hwnd,
            t.process_name@ == process_name@,
            t.last_check == now,
            t.check_interval == 2000000000,
            !t.ever_focused,
            t.use_exact_match == use_exact_match,
    {
        WindowTracker {
            hwnd,
            process_name: process_name.to_owned(),
            last_check: now,
            check_interval: CHECK_INTERVAL,
            ever_focused: false,
            use_exact_match,
        }
    }

    /// Whether the followed window is the one in the foreground; remembers that it was.
    pub fn is_focused(&mut self, foreground_window: isize) -> (focused: bool)
        ensures
            focused == old(self)@.focused(foreground_window),
            final(self)@ == old(self)@.after_focus(foreground_window),
            focused <==> foreground_window == old(self).hwnd,
            final(self).ever_focused <==> old(self).ever_focused || focused,
            final(self).hwnd == old(self).hwnd,
            final(self).process_name@ == old(self).process_name@,
            final(self).last_check == old(self).last_check,
            final(self).check_interval == old(self).check_interval,
            final(self).use_exact_match == old(self).use_exact_match,
    {
        let is_target_window: bool = foreground_window == self.hwnd;
        if is_target_window {
            self.ever_focused = true;
        }
        is_target_window
    }

    /// Begins a validity check. Within a check interval of the last one, the window counts as
    /// valid and nothing is asked.
    pub fn ensure_valid_window(&mut self, now: u128) -> (check: WindowCheck)
        ensures
            check == old(self)@.check(now),
            final(self)@ == old(self)@.after_check(now),
            check == WindowCheck::Probe <==> (now >= old(self).last_check
                + old(self).check_interval || old(self).check_interval == 0),
            check != WindowCheck::Probe ==> check == WindowCheck::Settled(true),
            check == WindowCheck::Probe ==> final(self).last_check == now,
            check != WindowCheck::Probe ==> final(self).last_check == old(self).last_check,
            final(self).hwnd == old(self).hwnd,
            final(self).process_name@ == old(self).process_name@,
            final(self).check_interval == old(self).check_interval,
            final(self).ever_focused == old(self).ever_focused,
            final(self).use_exact_match == old(self).use_exact_match,
    {
        if duration_since(now, self.last_check) < self.check_interval {
            return WindowCheck::Settled(true);
        }
        self.last_check = now;
        WindowCheck::Probe
    }

    /// Goes on with a check once the system has said whether the handle is valid.
    pub fn window_probed(&self, valid: bool) -> (check: WindowCheck)
        ensures
            check == (if valid {
                WindowCheck::Settled(true)
            } else {
                WindowCheck::Search
            }),
    {
        if valid {
            WindowCheck::Settled(true)
        } else {
            WindowCheck::Search
        }
    }

    /// Ends a check with the outcome of the search: a window that was found is followed from now
    /// on.
    pub fn window_searched(&mut self, found: Option<isize>) -> (check: WindowCheck)
        ensures
            check == WindowCheck::Settled(found is Some),
            final(self)@ == old(self)@.after_search(found),
            final(self).hwnd == (match found {
                Some(hwnd) => hwnd,
                None => old(self).hwnd,
            }),
            final(self).process_name@ == old(self).process_name@,
            final(self).last_check == old(self).last_check,
            final(self).check_interval == old(self).check_interval,
            final(self).ever_focused == old(self).ever_focused,
            final(self).use_exact_match == old(self).use_exact_match,
    {
        match found {
            Some(new_hwnd) => {
                self.hwnd = new_hwnd;
                WindowCheck::Settled(true)
            },
            None => WindowCheck::Settled(false),
        }
    }
}

/// How a newly read focus differs from the last one that was reported.
pub open spec fn focus_changed(last: Option<bool>, focused: bool) -> bool {
    last != Some(focused)
}

/// Takes note of a focus state; says whether it is news.
pub fn note_focus(last: &mut Option<bool>, focused: bool) -> (changed: bool)
    ensures
        changed == focus_changed(*old(last), focused),
        !changed <==> *old(last) == Some(focused),
        *final(last) == Some(focused),
{
    let changed: bool = match *last {
        Some(before) => before != focused,
        None => true,
    };
    *last = Some(focused);
    changed
}

} // verus!
