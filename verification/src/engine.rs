//! The sync engine: one sweep attempt as an explicit state machine. A sweep
//! opens the window, paginates the remote listing page by page, reconciles
//! every page, and closes the window when the remote reports no further
//! cursor. Any failure aborts the attempt without closing the window.
//!
//! The network fetch itself happens outside the library: `begin` and
//! `on_page` hand back the next request to issue, and the caller feeds the
//! translated page (or the failure) back in. `run_sweep_over` drives a whole
//! attempt over an already-materialized sequence of fetch outcomes.

use vstd::prelude::*;
use crate::errors::SyncError;
use crate::page::{FetchRequest, MAX_PAGE_RESULTS, Page, request_for, requested_attributes};
use crate::reconcile::{apply_observations, apply_page, count_inserts};
use crate::store::{RecordModel, RecordStore};
use crate::sweep::{close_transition, open_transition, SweepWindow};

verus! {

/// Addition capped at `u64::MAX`: page statistics accumulate without
/// overflow by saturating.
pub open spec fn sat_add(a: int, b: int) -> int {
    if a + b > u64::MAX {
        u64::MAX as int
    } else {
        a + b
    }
}

fn sat_add_u64(a: u64, b: u64) -> (r: u64)
    ensures
        r as int == sat_add(a as int, b as int),
{
    if b > u64::MAX - a {
        u64::MAX
    } else {
        a + b
    }
}

/// Where a sweep attempt stands.
#[derive(Clone, Copy, Debug, PartialEq, Eq, Structural)]
pub enum SweepPhase {
    /// No attempt running.
    Idle,
    /// The window is open and pages are being fetched and reconciled.
    Paginating,
    /// The attempt finished and closed the window.
    Closed,
    /// The attempt failed; the window stays open.
    Aborted,
}

/// One sweep attempt: its phase, the cursor in effect, and the statistics
/// accumulated over its pages so far.
pub struct SweepAttempt {
    pub phase: SweepPhase,
    pub cursor: Option<String>,
    pub fetched: u64,
    pub inserted: u64,
    pub updated: u64,
}

/// The cursor as a mathematical value.
pub open spec fn cursor_view(c: Option<String>) -> Option<Seq<char>> {
    match c {
        Some(s) => Some(s@),
        None => None,
    }
}

impl SweepAttempt {
    /// A held cursor is never the empty string.
    pub open spec fn wf(&self) -> bool {
        self.cursor matches Some(c) ==> c@.len() > 0
    }

    /// A fresh, idle attempt.
    pub fn new() -> (a: SweepAttempt)
        ensures
            a.phase is Idle,
            a.cursor is None,
            a.fetched == 0,
            a.inserted == 0,
            a.updated == 0,
            a.wf(),
    {
        SweepAttempt { phase: SweepPhase::Idle, cursor: None, fetched: 0, inserted: 0, updated: 0 }
    }

    /// Starts a sweep attempt: opens the window at `now`, resets the
    /// statistics, and hands back the first fetch request, which carries no
    /// cursor. Fails, changing nothing, if a sweep is already open.
    pub fn begin(&mut self, window: &mut SweepWindow, now: u64) -> (r: Result<
        FetchRequest,
        SyncError,
    >)
        requires
            old(self).phase is Idle,
            old(self).wf(),
            old(window).wf(),
            old(window)@.last_end matches Some(le) ==> le <= now,
        ensures
            final(window).wf(),
            final(self).wf(),
            old(window)@.curr_start is Some ==> {
                &&& r matches Err(e) && e == SyncError::SweepAlreadyOpen
                &&& final(window)@ == old(window)@
                &&& *final(self) == *old(self)
            },
            old(window)@.curr_start is None ==> {
                &&& r matches Ok(req) && req.cursor is None && req.wf()
                    && req.max_results == MAX_PAGE_RESULTS && req.attributes@
                    == requested_attributes()
                &&& final(window)@ == open_transition(old(window)@, now)
                &&& final(self).phase is Paginating
                &&& final(self).cursor is None
                &&& final(self).fetched == 0 && final(self).inserted == 0 && final(self).updated
                    == 0
            },
    {
        match window.open_sweep(now) {
            Ok(_) => {
                self.phase = SweepPhase::Paginating;
                self.cursor = None;
                self.fetched = 0;
                self.inserted = 0;
                self.updated = 0;
                Ok(request_for(None))
            },
            Err(e) => Err(e),
        }
    }

    /// Feeds the attempt one fetched page: reconciles it, accumulates its
    /// statistics (saturating), and either hands back the request for the
    /// next page, or — when the page reports no further cursor — closes the
    /// window and finishes the attempt.
    pub fn on_page(
        &mut self,
        store: &mut RecordStore,
        window: &mut SweepWindow,
        page: &Page,
        now: u64,
    ) -> (r: Option<FetchRequest>)
        requires
            old(self).phase is Paginating,
            old(self).wf(),
            old(store).wf(),
            old(window).wf(),
            old(window)@.curr_start matches Some(cs) && cs <= now,
            page.wf(),
        ensures
            final(self).wf(),
            final(store).wf(),
            final(window).wf(),
            final(store)@ == apply_observations(
                old(store)@,
                old(window)@.last_start,
                page.obs(),
                now,
            ),
            final(self).fetched as int == sat_add(
                old(self).fetched as int,
                page.entities@.len() as int,
            ),
            final(self).inserted as int == sat_add(
                old(self).inserted as int,
                count_inserts(old(store)@, old(window)@.last_start, page.obs(), now) as int,
            ),
            final(self).updated as int == sat_add(
                old(self).updated as int,
                page.entities@.len() - count_inserts(
                    old(store)@,
                    old(window)@.last_start,
                    page.obs(),
                    now,
                ),
            ),
            page.next_cursor is Some ==> {
                &&& r matches Some(req) && req.cursor == page.next_cursor && req.wf()
                    && req.max_results == MAX_PAGE_RESULTS && req.attributes@
                    == requested_attributes()
                &&& final(self).phase is Paginating
                &&& final(self).cursor == page.next_cursor
                &&& final(window)@ == old(window)@
            },
            page.next_cursor is None ==> {
                &&& r is None
                &&& final(self).phase is Closed
                &&& final(self).cursor is None
                &&& final(window)@ == close_transition(old(window)@, now)
            },
    {
        let stats = apply_page(store, window, page, now);
        self.fetched = sat_add_u64(self.fetched, stats.fetched as u64);
        self.inserted = sat_add_u64(self.inserted, stats.inserted as u64);
        self.updated = sat_add_u64(self.updated, stats.updated as u64);
        match &page.next_cursor {
            Some(c) => {
                self.cursor = Some(c.clone());
                Some(request_for(Some(c.clone())))
            },
            None => {
                window.close_sweep(now);
                self.phase = SweepPhase::Closed;
                self.cursor = None;
                None
            },
        }
    }

    /// Records a failure of the current fetch or reconciliation step: the
    /// attempt aborts, keeping the cursor in effect at failure time, and the
    /// window is left untouched — an aborted sweep stays open.
    pub fn on_error(&mut self)
        requires
            old(self).phase is Paginating,
        ensures
            final(self).phase is Aborted,
            final(self).cursor == old(self).cursor,
            final(self).fetched == old(self).fetched,
            final(self).inserted == old(self).inserted,
            final(self).updated == old(self).updated,
            final(self).wf() == old(self).wf(),
    {
        self.phase = SweepPhase::Aborted;
    }
}

/// How one whole sweep attempt ended.
#[derive(Debug, PartialEq, Eq)]
pub enum SweepRun {
    /// The remote reported no further pages; the window was closed.
    Completed { fetched: u64, inserted: u64, updated: u64 },
    /// A fetch failed; the window stays open, and the cursor in effect at
    /// failure time is reported so the caller can decide what to do with it.
    Aborted { error: SyncError, cursor: Option<String> },
}

/// Mathematical model of a sweep attempt's end.
pub ghost enum RunModel {
    Completed { fetched: int, inserted: int, updated: int },
    Aborted { error: SyncError, cursor: Option<Seq<char>> },
}

impl View for SweepRun {
    type V = RunModel;

    open spec fn view(&self) -> RunModel {
        match *self {
            SweepRun::Completed { fetched, inserted, updated } => RunModel::Completed {
                fetched: fetched as int,
                inserted: inserted as int,
                updated: updated as int,
            },
            SweepRun::Aborted { error, cursor } => RunModel::Aborted {
                error,
                cursor: cursor_view(cursor),
            },
        }
    }
}

/// Where the store and the attempt stand once a run over a feed has ended.
pub ghost struct RunEnd {
    pub store: Map<Seq<char>, RecordModel>,
    pub outcome: RunModel,
}

/// Whether this fetch outcome ends the pagination loop: a failure does, and
/// so does a page that reports no further cursor.
pub open spec fn is_terminal(item: Result<Page, SyncError>) -> bool {
    match item {
        Ok(p) => p.next_cursor is None,
        Err(_) => true,
    }
}

/// The model of the pagination loop: consume fetch outcomes in order,
/// reconciling each page and accumulating statistics, until a page without a
/// further cursor completes the sweep or a failure aborts it with the cursor
/// then in effect. (A feed that runs dry mid-pagination is left unspecified;
/// the driver requires a feed that ends.)
pub open spec fn sweep_run_model(
    store: Map<Seq<char>, RecordModel>,
    last_start: Option<u64>,
    cursor: Option<Seq<char>>,
    feed: Seq<Result<Page, SyncError>>,
    fetched: int,
    inserted: int,
    updated: int,
    now: u64,
) -> RunEnd
    decreases feed.len(),
{
    if feed.len() == 0 {
        RunEnd { store, outcome: arbitrary() }
    } else {
        match feed[0] {
            Err(e) => RunEnd { store, outcome: RunModel::Aborted { error: e, cursor } },
            Ok(p) => {
                let store2 = apply_observations(store, last_start, p.obs(), now);
                let ins = count_inserts(store, last_start, p.obs(), now);
                let fetched2 = sat_add(fetched, p.entities@.len() as int);
                let inserted2 = sat_add(inserted, ins as int);
                let updated2 = sat_add(updated, p.entities@.len() - ins);
                if p.next_cursor is None {
                    RunEnd {
                        store: store2,
                        outcome: RunModel::Completed {
                            fetched: fetched2,
                            inserted: inserted2,
                            updated: updated2,
                        },
                    }
                } else {
                    sweep_run_model(
                        store2,
                        last_start,
                        cursor_view(p.next_cursor),
                        feed.drop_first(),
                        fetched2,
                        inserted2,
                        updated2,
                        now,
                    )
                }
            },
        }
    }
}

/// Pagination termination: a finite feed of successfully fetched pages whose
/// last page reports no further cursor always completes the sweep — the
/// model never ends in an abort, whatever the pages hold.
pub proof fn lemma_all_pages_complete(
    store: Map<Seq<char>, RecordModel>,
    last_start: Option<u64>,
    cursor: Option<Seq<char>>,
    feed: Seq<Result<Page, SyncError>>,
    fetched: int,
    inserted: int,
    updated: int,
    now: u64,
)
    requires
        feed.len() > 0,
        is_terminal(feed.last()),
        forall|j: int| 0 <= j < feed.len() ==> #[trigger] feed[j] is Ok,
    ensures
        sweep_run_model(store, last_start, cursor, feed, fetched, inserted, updated, now).outcome
            is Completed,
    decreases feed.len(),
{
    let p = feed[0]->Ok_0;
    if p.next_cursor is Some {
        assert(!is_terminal(feed[0]));
        assert(feed.len() > 1);
        let rest = feed.drop_first();
        assert(rest.last() == feed.last());
        assert(forall|j: int| 0 <= j < rest.len() ==> #[trigger] rest[j] == feed[j + 1]);
        let store2 = apply_observations(store, last_start, p.obs(), now);
        let ins = count_inserts(store, last_start, p.obs(), now);
        lemma_all_pages_complete(
            store2,
            last_start,
            cursor_view(p.next_cursor),
            rest,
            sat_add(fetched, p.entities@.len() as int),
            sat_add(inserted, ins as int),
            sat_add(updated, p.entities@.len() - ins),
            now,
        );
    }
}

/// Drives one whole sweep attempt over an already-materialized, finite feed
/// of fetch outcomes whose last element ends the pagination (its page
/// reports no further cursor, or it is a failure). The loop always
/// terminates; a completed run closes the window, an aborted run leaves it
/// open with `last_start` and `last_end` untouched.
pub fn run_sweep_over(
    store: &mut RecordStore,
    window: &mut SweepWindow,
    feed: &Vec<Result<Page, SyncError>>,
    now: u64,
) -> (r: SweepRun)
    requires
        old(store).wf(),
        old(window).wf(),
        old(window)@.curr_start is None,
        old(window)@.last_end matches Some(le) ==> le <= now,
        feed@.len() > 0,
        is_terminal(feed@.last()),
        forall|j: int| 0 <= j < feed@.len() ==> (#[trigger] feed@[j] matches Ok(p) ==> p.wf()),
    ensures
        final(store).wf(),
        final(window).wf(),
        ({
            let end = sweep_run_model(
                old(store)@,
                old(window)@.last_start,
                None,
                feed@,
                0,
                0,
                0,
                now,
            );
            &&& final(store)@ == end.store
            &&& r@ == end.outcome
        }),
        r is Completed ==> final(window)@ == close_transition(
            open_transition(old(window)@, now),
            now,
        ),
        r is Aborted ==> final(window)@ == open_transition(old(window)@, now),
        (forall|j: int| 0 <= j < feed@.len() ==> #[trigger] feed@[j] is Ok) ==> r is Completed,
{
    proof {
        if forall|j: int| 0 <= j < feed@.len() ==> #[trigger] feed@[j] is Ok {
            lemma_all_pages_complete(
                store@,
                window@.last_start,
                None,
                feed@,
                0,
                0,
                0,
                now,
            );
        }
    }
    let ghost m0 = store@;
    let ghost win0 = window@;
    let ghost ls = window@.last_start;
    let ghost end = sweep_run_model(m0, ls, None, feed@, 0, 0, 0, now);
    let mut attempt = SweepAttempt::new();
    let opened = attempt.begin(window, now);
    proof {
        assert(opened is Ok);
        assert(feed@.skip(0) =~= feed@);
    }
    let n = feed.len();
    let mut i: usize = 0;
    while i < n
        invariant
            0 <= i <= n,
            n == feed@.len(),
            is_terminal(feed@.last()),
            forall|j: int| 0 <= j < feed@.len() ==> (#[trigger] feed@[j] matches Ok(p) ==> p.wf()),
            forall|j: int| 0 <= j < i ==> !is_terminal(feed@[j]),
            store.wf(),
            window.wf(),
            m0 == old(store)@,
            win0 == old(window)@,
            end == sweep_run_model(m0, ls, None, feed@, 0, 0, 0, now),
            window@ == open_transition(win0, now),
            ls == win0.last_start,
            ls == window@.last_start,
            attempt.phase is Paginating,
            attempt.wf(),
            end == sweep_run_model(
                store@,
                ls,
                cursor_view(attempt.cursor),
                feed@.skip(i as int),
                attempt.fetched as int,
                attempt.inserted as int,
                attempt.updated as int,
                now,
            ),
        decreases n - i,
    {
        proof {
            assert(feed@.skip(i as int)[0] == feed@[i as int]);
        }
        match &feed[i] {
            Err(e) => {
                attempt.on_error();
                proof {
                    let sfx = feed@.skip(i as int);
                    assert(sfx.len() > 0);
                    assert(sfx[0] == Err::<Page, SyncError>(*e));
                    assert(end == RunEnd {
                        store: store@,
                        outcome: RunModel::Aborted {
                            error: *e,
                            cursor: cursor_view(attempt.cursor),
                        },
                    });
                }
                return SweepRun::Aborted { error: *e, cursor: attempt.cursor };
            },
            Ok(p) => {
                let next = attempt.on_page(store, window, p, now);
                match next {
                    None => {
                        proof {
                            let sfx = feed@.skip(i as int);
                            assert(sfx.len() > 0);
                            assert(sfx[0] == Ok::<Page, SyncError>(*p));
                            assert(p.next_cursor is None);
                            assert(end == RunEnd {
                                store: store@,
                                outcome: RunModel::Completed {
                                    fetched: attempt.fetched as int,
                                    inserted: attempt.inserted as int,
                                    updated: attempt.updated as int,
                                },
                            });
                        }
                        return SweepRun::Completed {
                            fetched: attempt.fetched,
                            inserted: attempt.inserted,
                            updated: attempt.updated,
                        };
                    },
                    Some(_req) => {
                        proof {
                            assert(feed@.skip(i as int).drop_first() =~= feed@.skip(i + 1));
                        }
                        i = i + 1;
                    },
                }
            },
        }
    }
    proof {
        assert(!is_terminal(feed@[n - 1]));
        assert(false);
    }
    SweepRun::Aborted { error: SyncError::NetworkUnreachable, cursor: None }
}

} // verus!
