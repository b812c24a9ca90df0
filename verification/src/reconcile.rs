//! Reconciliation: upserting one page of observations into the record store
//! against the current sweep window, classifying each observation as newly
//! inserted or merely re-confirmed.
//!
//! An entity counts as confirmed for the current sweep exactly when its
//! `last_seen` is at or after the last completed sweep's start; while no
//! sweep has ever completed, every stored entity counts as confirmed, since
//! everything in the store was written by the sweep in progress.

use vstd::prelude::*;
use crate::page::{Observation, ObsModel, Page};
use crate::store::{RecordModel, RecordStore, TrackedEntity};
use crate::sweep::SweepWindow;

verus! {

/// Whether the record stored under `id` still counts as seen within the
/// current sweep's window.
pub open spec fn confirmed_since(
    m: Map<Seq<char>, RecordModel>,
    last_start: Option<u64>,
    id: Seq<char>,
) -> bool {
    m.contains_key(id) && (last_start matches Some(ls) ==> m[id].last_seen >= ls)
}

/// One observation applied to the store: a confirmed entity keeps its
/// `first_seen` and has `last_seen` and its attributes refreshed; anything
/// else is (re)created with `first_seen = last_seen = now`.
pub open spec fn apply_observation(
    m: Map<Seq<char>, RecordModel>,
    last_start: Option<u64>,
    o: ObsModel,
    now: u64,
) -> Map<Seq<char>, RecordModel> {
    let first = if confirmed_since(m, last_start, o.id) {
        m[o.id].first_seen
    } else {
        now
    };
    m.insert(o.id, RecordModel { first_seen: first, last_seen: now, handle: o.handle, name: o.name })
}

/// A whole page's observations applied in page order.
pub open spec fn apply_observations(
    m: Map<Seq<char>, RecordModel>,
    last_start: Option<u64>,
    obs: Seq<ObsModel>,
    now: u64,
) -> Map<Seq<char>, RecordModel>
    decreases obs.len(),
{
    if obs.len() == 0 {
        m
    } else {
        apply_observation(
            apply_observations(m, last_start, obs.drop_last(), now),
            last_start,
            obs.last(),
            now,
        )
    }
}

/// How many of the observations, applied in page order, found no confirmed
/// record and so were classified as inserts.
pub open spec fn count_inserts(
    m: Map<Seq<char>, RecordModel>,
    last_start: Option<u64>,
    obs: Seq<ObsModel>,
    now: u64,
) -> nat
    decreases obs.len(),
{
    if obs.len() == 0 {
        0
    } else {
        count_inserts(m, last_start, obs.drop_last(), now) + (if confirmed_since(
            apply_observations(m, last_start, obs.drop_last(), now),
            last_start,
            obs.last().id,
        ) {
            0nat
        } else {
            1nat
        })
    }
}

/// Whether some observation in the sequence carries this id.
pub open spec fn observed(obs: Seq<ObsModel>, k: Seq<char>) -> bool {
    exists|i: int| 0 <= i < obs.len() && obs[i].id == k
}

/// Per-page statistics the reconciler reports.
#[derive(Clone, Copy, Debug, PartialEq, Eq, Structural)]
pub struct PageStats {
    pub fetched: usize,
    pub inserted: usize,
    pub updated: usize,
}

/// Upserts one observation, reporting whether it was an insert (no record of
/// its id was confirmed within the window) or an update.
pub fn reconcile_observation(
    store: &mut RecordStore,
    last_start: Option<u64>,
    o: &Observation,
    now: u64,
) -> (inserted: bool)
    requires
        old(store).wf(),
    ensures
        final(store).wf(),
        final(store)@ == apply_observation(old(store)@, last_start, o@, now),
        inserted == !confirmed_since(old(store)@, last_start, o.id@),
{
    let (confirmed, first) = match store.get(&o.id) {
        Some(existing) => {
            let seen = match last_start {
                Some(ls) => existing.last_seen >= ls,
                None => true,
            };
            if seen {
                (true, existing.first_seen)
            } else {
                (false, now)
            }
        },
        None => (false, now),
    };
    store.put(
        TrackedEntity {
            id: o.id.clone(),
            first_seen: first,
            last_seen: now,
            last_handle_seen: o.username.clone(),
            last_name_seen: o.display_name.clone(),
        },
    );
    !confirmed
}

/// Applies one page of observations to the store against the given window,
/// in page order, and reports the page's statistics: everything fetched was
/// either inserted or updated.
pub fn apply_page(store: &mut RecordStore, window: &SweepWindow, page: &Page, now: u64) -> (stats:
    PageStats)
    requires
        old(store).wf(),
    ensures
        final(store).wf(),
        final(store)@ == apply_observations(old(store)@, window@.last_start, page.obs(), now),
        stats.fetched == page.entities@.len(),
        stats.inserted == count_inserts(old(store)@, window@.last_start, page.obs(), now),
        stats.inserted <= stats.fetched,
        stats.updated == stats.fetched - stats.inserted,
{
    let ghost m0 = store@;
    let ghost obs = page.obs();
    let ls = window.last_start;
    let n = page.entities.len();
    let mut inserted: usize = 0;
    let mut i: usize = 0;
    while i < n
        invariant
            i <= n,
            n == page.entities@.len(),
            obs == page.obs(),
            store.wf(),
            store@ == apply_observations(m0, ls, obs.take(i as int), now),
            inserted as nat == count_inserts(m0, ls, obs.take(i as int), now),
            inserted <= i,
        decreases n - i,
    {
        let was_insert = reconcile_observation(store, ls, &page.entities[i], now);
        proof {
            assert(obs.take(i + 1).drop_last() =~= obs.take(i as int));
            assert(obs.take(i + 1).last() == obs[i as int]);
            assert(obs[i as int] == page.entities@[i as int]@);
        }
        if was_insert {
            inserted = inserted + 1;
        }
        i = i + 1;
    }
    proof {
        assert(obs.take(n as int) =~= obs);
    }
    PageStats { fetched: n, inserted, updated: n - inserted }
}

/// Every id the page observes ends the application present in the store with
/// `last_seen` stamped to the application time.
pub proof fn lemma_apply_observations_stamps(
    m: Map<Seq<char>, RecordModel>,
    last_start: Option<u64>,
    obs: Seq<ObsModel>,
    now: u64,
)
    ensures
        forall|i: int|
            #![trigger obs[i]]
            0 <= i < obs.len() ==> {
                let m1 = apply_observations(m, last_start, obs, now);
                m1.contains_key(obs[i].id) && m1[obs[i].id].last_seen == now
            },
    decreases obs.len(),
{
    if obs.len() > 0 {
        let dl = obs.drop_last();
        lemma_apply_observations_stamps(m, last_start, dl, now);
        let pre = apply_observations(m, last_start, dl, now);
        let m1 = apply_observations(m, last_start, obs, now);
        assert forall|i: int| 0 <= i < obs.len() implies {
            let m1 = apply_observations(m, last_start, obs, now);
            m1.contains_key(#[trigger] obs[i].id) && m1[obs[i].id].last_seen == now
        } by {
            if i < obs.len() - 1 {
                assert(dl[i] == obs[i]);
                assert(pre.contains_key(obs[i].id) && pre[obs[i].id].last_seen == now);
            }
        }
    }
}

/// Applying observations touches exactly the observed ids: every other key
/// keeps its record, and every key it does touch ends stamped with `now`.
pub proof fn lemma_apply_observations_frame(
    m: Map<Seq<char>, RecordModel>,
    last_start: Option<u64>,
    obs: Seq<ObsModel>,
    now: u64,
)
    ensures
        forall|k: Seq<char>|
            #[trigger] apply_observations(m, last_start, obs, now).contains_key(k) <==> (
            m.contains_key(k) || observed(obs, k)),
        forall|k: Seq<char>|
            #[trigger] apply_observations(m, last_start, obs, now).contains_key(k) ==> (
            apply_observations(m, last_start, obs, now)[k].last_seen == now || (m.contains_key(k)
                && apply_observations(m, last_start, obs, now)[k] == m[k])),
    decreases obs.len(),
{
    if obs.len() == 0 {
        assert(forall|k: Seq<char>| !observed(obs, k));
    } else {
        let dl = obs.drop_last();
        lemma_apply_observations_frame(m, last_start, dl, now);
        let pre = apply_observations(m, last_start, dl, now);
        let m1 = apply_observations(m, last_start, obs, now);
        assert forall|k: Seq<char>| observed(dl, k) implies observed(obs, k) by {
            let i = choose|i: int| 0 <= i < dl.len() && dl[i].id == k;
            assert(obs[i].id == k);
        }
        assert forall|k: Seq<char>| observed(obs, k) && k != obs.last().id implies observed(
            dl,
            k,
        ) by {
            let i = choose|i: int| 0 <= i < obs.len() && obs[i].id == k;
            assert(i < obs.len() - 1);
            assert(dl[i].id == k);
        }
        assert(observed(obs, obs.last().id));
    }
}

/// When every observed id is already confirmed within the window and the
/// clock has not fallen behind the window's start, re-applying the page
/// inserts nothing and leaves the store's key set unchanged.
pub proof fn lemma_count_inserts_zero(
    m: Map<Seq<char>, RecordModel>,
    last_start: Option<u64>,
    obs: Seq<ObsModel>,
    now: u64,
)
    requires
        forall|i: int| 0 <= i < obs.len() ==> confirmed_since(m, last_start, #[trigger] obs[i].id),
        last_start matches Some(ls) ==> ls <= now,
    ensures
        count_inserts(m, last_start, obs, now) == 0,
        apply_observations(m, last_start, obs, now).dom() =~= m.dom(),
    decreases obs.len(),
{
    if obs.len() > 0 {
        let dl = obs.drop_last();
        assert forall|i: int| 0 <= i < dl.len() implies confirmed_since(
            m,
            last_start,
            #[trigger] dl[i].id,
        ) by {
            assert(dl[i] == obs[i]);
        }
        lemma_count_inserts_zero(m, last_start, dl, now);
        lemma_apply_observations_frame(m, last_start, dl, now);
        let pre = apply_observations(m, last_start, dl, now);
        let last_id = obs.last().id;
        assert(confirmed_since(m, last_start, last_id));
        assert(pre.contains_key(last_id));
        assert(pre[last_id].last_seen == now || pre[last_id] == m[last_id]);
        assert(confirmed_since(pre, last_start, last_id));
        assert(apply_observations(m, last_start, obs, now).dom() =~= m.dom());
    }
}

/// Idempotent reconciliation: once a page has been applied, every id it
/// observes is confirmed within the same window, so applying the identical
/// page again classifies nothing as an insert and adds no row — the same set
/// of ids is merely updated again.
pub proof fn lemma_reconciliation_idempotent(
    m: Map<Seq<char>, RecordModel>,
    last_start: Option<u64>,
    obs: Seq<ObsModel>,
    first_now: u64,
    second_now: u64,
)
    requires
        last_start matches Some(ls) ==> ls <= first_now && ls <= second_now,
    ensures
        ({
            let m1 = apply_observations(m, last_start, obs, first_now);
            &&& forall|i: int|
                0 <= i < obs.len() ==> confirmed_since(m1, last_start, #[trigger] obs[i].id)
            &&& count_inserts(m1, last_start, obs, second_now) == 0
            &&& apply_observations(m1, last_start, obs, second_now).dom() =~= m1.dom()
        }),
{
    let m1 = apply_observations(m, last_start, obs, first_now);
    lemma_apply_observations_stamps(m, last_start, obs, first_now);
    assert forall|i: int| 0 <= i < obs.len() implies confirmed_since(
        m1,
        last_start,
        #[trigger] obs[i].id,
    ) by {
        assert(m1.contains_key(obs[i].id) && m1[obs[i].id].last_seen == first_now);
    }
    lemma_count_inserts_zero(m1, last_start, obs, second_now);
}

} // verus!
