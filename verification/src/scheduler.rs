//! The control layer around sweep attempts: the startup ownership check, the
//! cancellation signal that merges all shutdown triggers, and the
//! scheduler's per-tick decisions — whether to run, with which cursor, and
//! what a finished attempt's outcome means for the next tick.

use vstd::prelude::*;
use crate::engine::SweepRun;
use crate::errors::{class_of, classify, ErrorClass, SyncError};
use crate::sweep::{discard_transition, SweepWindow};

verus! {

/// How the startup ownership check came out on success.
#[derive(Clone, Copy, Debug, PartialEq, Eq, Structural)]
pub enum OwnerBinding {
    /// The store had no owner yet; it is to be bound to this account.
    Initialized,
    /// The store's owner matches the authenticated account.
    Verified,
}

/// The startup ownership check: a store with no owner yet is bound to the
/// authenticated account; a store owned by the same account is accepted; a
/// store owned by anyone else is refused with a fatal error, so no sweep is
/// ever run against another account's history.
pub fn check_owner(stored: &Option<String>, authenticated: &String) -> (r: Result<
    OwnerBinding,
    SyncError,
>)
    ensures
        stored is None ==> r == Ok::<OwnerBinding, SyncError>(OwnerBinding::Initialized),
        stored matches Some(o) && o@ == authenticated@ ==> r == Ok::<OwnerBinding, SyncError>(
            OwnerBinding::Verified,
        ),
        stored matches Some(o) && o@ != authenticated@ ==> r == Err::<OwnerBinding, SyncError>(
            SyncError::OwnerMismatch,
        ) && class_of(SyncError::OwnerMismatch) is Fatal,
{
    match stored {
        None => Ok(OwnerBinding::Initialized),
        Some(o) => {
            if *o == *authenticated {
                Ok(OwnerBinding::Verified)
            } else {
                Err(SyncError::OwnerMismatch)
            }
        },
    }
}

/// The single cancellation signal that every shutdown trigger collapses
/// into: the first trigger raises it, later triggers are no-ops.
pub struct CancelFlag {
    pub cancelled: bool,
}

impl CancelFlag {
    /// A signal that has not fired.
    pub fn new() -> (f: CancelFlag)
        ensures
            !f.cancelled,
    {
        CancelFlag { cancelled: false }
    }

    /// Raises the signal, reporting whether this trigger was the first;
    /// once raised it never clears.
    pub fn trigger(&mut self) -> (first: bool)
        ensures
            final(self).cancelled,
            first == !old(self).cancelled,
    {
        let first = !self.cancelled;
        self.cancelled = true;
        first
    }

    /// Whether the signal has fired.
    pub fn is_cancelled(&self) -> (r: bool)
        ensures
            r == self.cancelled,
    {
        self.cancelled
    }
}

/// What the scheduler decides to do at one tick boundary.
#[derive(Debug, PartialEq, Eq)]
pub enum TickDecision {
    /// Leave the loop: cancellation was requested, or a fatal error halted
    /// the scheduler for good.
    Halt,
    /// Run one sweep attempt, starting from this cursor.
    Run { cursor: Option<String> },
}

/// The scheduler's loop state between ticks: the cursor to hand the next
/// attempt, and whether the loop has been halted for good.
pub struct SchedulerState {
    pub carried_cursor: Option<String>,
    pub halted: bool,
}

impl SchedulerState {
    /// The state before the first tick: no cursor, not halted.
    pub fn new() -> (s: SchedulerState)
        ensures
            s.carried_cursor is None,
            !s.halted,
    {
        SchedulerState { carried_cursor: None, halted: false }
    }

    /// The decision at a tick boundary. Cancellation checked here takes
    /// priority over starting a new sweep attempt, and a halted scheduler
    /// never runs again; otherwise one attempt runs with the carried cursor.
    pub fn on_tick(&self, cancel_requested: bool) -> (d: TickDecision)
        ensures
            (cancel_requested || self.halted) <==> d is Halt,
            d matches TickDecision::Run { cursor } ==> cursor == self.carried_cursor,
    {
        if cancel_requested || self.halted {
            TickDecision::Halt
        } else {
            TickDecision::Run { cursor: self.carried_cursor.clone() }
        }
    }

    /// Folds a finished attempt's outcome into the loop state. A completed
    /// attempt carries no cursor forward (its final cursor is necessarily
    /// absent). A fatal failure halts the loop for good. A retryable or
    /// unknown failure discards the in-flight cursor and releases the window
    /// the aborted attempt left open, so the next tick restarts a fresh
    /// sweep from its first page rather than resuming.
    pub fn record_outcome(&mut self, outcome: &SweepRun, window: &mut SweepWindow) -> (c: Option<
        ErrorClass,
    >)
        requires
            old(window).wf(),
        ensures
            final(self).carried_cursor is None,
            final(window).wf(),
            outcome is Completed ==> final(self).halted == old(self).halted && c is None
                && final(window)@ == old(window)@,
            outcome matches SweepRun::Aborted { error, .. } ==> {
                &&& c == Some(class_of(*error))
                &&& (class_of(*error) is Fatal ==> final(self).halted && final(window)@ == old(
                    window,
                )@)
                &&& (!(class_of(*error) is Fatal) ==> final(self).halted == old(self).halted
                    && final(window)@ == discard_transition(old(window)@))
            },
    {
        match outcome {
            SweepRun::Completed { .. } => {
                self.carried_cursor = None;
                None
            },
            SweepRun::Aborted { error, .. } => {
                let class = classify(error);
                self.carried_cursor = None;
                match class {
                    ErrorClass::Fatal => {
                        self.halted = true;
                    },
                    ErrorClass::Retryable | ErrorClass::Unknown => {
                        if window.curr_start.is_some() {
                            window.discard_aborted();
                        }
                    },
                }
                Some(class)
            },
        }
    }
}

} // verus!
