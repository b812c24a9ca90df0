//! The sweep window: the per-store singleton that records when the current
//! sweep opened, when the last completed sweep ran, and when the first sweep
//! ever completed. Opening and closing a sweep are the only transitions.

use vstd::prelude::*;

verus! {

/// Mathematical model of the sweep window.
pub ghost struct WindowModel {
    pub owner: Seq<char>,
    pub curr_start: Option<u64>,
    pub last_start: Option<u64>,
    pub last_end: Option<u64>,
    pub initial_completion: Option<u64>,
}

/// Opening a sweep marks its start time and changes nothing else.
pub open spec fn open_transition(w: WindowModel, now: u64) -> WindowModel {
    WindowModel { curr_start: Some(now), ..w }
}

/// Closing a sweep rolls the open sweep's start into `last_start`, clears
/// `curr_start`, stamps `last_end`, and stamps `initial_completion` only if
/// no sweep had ever completed before.
pub open spec fn close_transition(w: WindowModel, now: u64) -> WindowModel {
    WindowModel {
        owner: w.owner,
        curr_start: None,
        last_start: w.curr_start,
        last_end: Some(now),
        initial_completion: if w.initial_completion is Some {
            w.initial_completion
        } else {
            Some(now)
        },
    }
}

/// Discarding an aborted sweep clears its start and changes nothing else:
/// the completed-sweep marks are untouched.
pub open spec fn discard_transition(w: WindowModel) -> WindowModel {
    WindowModel { curr_start: None, ..w }
}

/// Well-formedness of a window: the three completion marks appear together,
/// a completed sweep's start does not lie after its end, and an open sweep
/// started no earlier than the last completed sweep ended.
pub open spec fn window_wf(w: WindowModel) -> bool {
    &&& (w.last_start is Some <==> w.last_end is Some)
    &&& (w.initial_completion is Some <==> w.last_end is Some)
    &&& (w.last_start matches Some(ls) ==> w.last_end matches Some(le) && ls <= le)
    &&& (w.initial_completion matches Some(ic) ==> w.last_end matches Some(le) && ic <= le)
    &&& (w.curr_start matches Some(cs) ==> (w.last_end matches Some(le) ==> le <= cs))
}

/// The sweep window held by the store's single metadata row.
pub struct SweepWindow {
    pub owner_id: String,
    pub curr_start: Option<u64>,
    pub last_start: Option<u64>,
    pub last_end: Option<u64>,
    pub initial_completion: Option<u64>,
}

impl View for SweepWindow {
    type V = WindowModel;

    open spec fn view(&self) -> WindowModel {
        WindowModel {
            owner: self.owner_id@,
            curr_start: self.curr_start,
            last_start: self.last_start,
            last_end: self.last_end,
            initial_completion: self.initial_completion,
        }
    }
}

impl SweepWindow {
    pub open spec fn wf(&self) -> bool {
        window_wf(self@)
    }

    /// A fresh window for a store that has never swept: everything unset.
    pub fn new(owner_id: String) -> (w: SweepWindow)
        ensures
            w@ == (WindowModel {
                owner: owner_id@,
                curr_start: None,
                last_start: None,
                last_end: None,
                initial_completion: None,
            }),
            w.wf(),
    {
        SweepWindow {
            owner_id,
            curr_start: None,
            last_start: None,
            last_end: None,
            initial_completion: None,
        }
    }

    /// Opens a sweep at `now`. At most one sweep may be open at a time:
    /// if one already is, the window is left untouched and the call fails.
    pub fn open_sweep(&mut self, now: u64) -> (r: Result<(), crate::errors::SyncError>)
        requires
            old(self).wf(),
            old(self)@.last_end matches Some(le) ==> le <= now,
        ensures
            final(self).wf(),
            old(self)@.curr_start is Some ==> r is Err && final(self)@ == old(self)@,
            old(self)@.curr_start is None ==> r is Ok && final(self)@ == open_transition(old(self)@, now),
            r matches Err(e) ==> e == crate::errors::SyncError::SweepAlreadyOpen,
    {
        if self.curr_start.is_some() {
            Err(crate::errors::SyncError::SweepAlreadyOpen)
        } else {
            self.curr_start = Some(now);
            Ok(())
        }
    }

    /// Closes the open sweep at `now`: `last_start` becomes the open sweep's
    /// start, `curr_start` clears, `last_end` becomes `now`, and
    /// `initial_completion` is stamped the first time only.
    pub fn close_sweep(&mut self, now: u64)
        requires
            old(self).wf(),
            old(self)@.curr_start matches Some(cs) && cs <= now,
        ensures
            final(self).wf(),
            final(self)@ == close_transition(old(self)@, now),
    {
        self.last_start = self.curr_start;
        self.curr_start = None;
        self.last_end = Some(now);
        if self.initial_completion.is_none() {
            self.initial_completion = Some(now);
        }
    }

    /// Releases a window left open by an aborted attempt, so the next tick
    /// can open a fresh sweep; the completed-sweep marks are untouched.
    pub fn discard_aborted(&mut self)
        requires
            old(self).wf(),
            old(self)@.curr_start is Some,
        ensures
            final(self).wf(),
            final(self)@ == discard_transition(old(self)@),
    {
        self.curr_start = None;
    }
}

/// Sweep-window monotonicity: across any run of sweeps, each open/close pair
/// under a non-decreasing clock keeps the window well formed, starts the new
/// completed window no earlier than the previous one ended, and stamps
/// `initial_completion` at most once, never changing it again.
pub proof fn lemma_sweep_window_monotonic(w: WindowModel, open_now: u64, close_now: u64)
    requires
        window_wf(w),
        w.curr_start is None,
        w.last_end matches Some(le) ==> le <= open_now,
        open_now <= close_now,
    ensures
        ({
            let w2 = close_transition(open_transition(w, open_now), close_now);
            &&& window_wf(w2)
            &&& w2.last_start == Some(open_now)
            &&& w2.last_end == Some(close_now)
            &&& (w.last_end matches Some(le) ==> le <= open_now)
            &&& (w.initial_completion is Some ==> w2.initial_completion == w.initial_completion)
            &&& (w.initial_completion is None ==> w2.initial_completion == Some(close_now))
        }),
{
}

} // verus!
