//! The record store: the durable table of tracked entities, keyed by the
//! remote-assigned id. Its model is a map from id to the record's fields;
//! every mutation is an upsert that keeps ids unique.

use vstd::prelude::*;
use vstd::pervasive::VecAdditionalExecFns;

verus! {

/// Mathematical model of one tracked entity's stored fields (the id is the
/// key it is stored under).
pub ghost struct RecordModel {
    pub first_seen: u64,
    pub last_seen: u64,
    pub handle: Seq<char>,
    pub name: Seq<char>,
}

/// One tracked entity: created on first observation, refreshed on every
/// re-observation, never deleted.
pub struct TrackedEntity {
    pub id: String,
    pub first_seen: u64,
    pub last_seen: u64,
    pub last_handle_seen: String,
    pub last_name_seen: String,
}

impl View for TrackedEntity {
    type V = RecordModel;

    open spec fn view(&self) -> RecordModel {
        RecordModel {
            first_seen: self.first_seen,
            last_seen: self.last_seen,
            handle: self.last_handle_seen@,
            name: self.last_name_seen@,
        }
    }
}

/// No two rows share an id.
pub open spec fn ids_unique(rs: Seq<TrackedEntity>) -> bool {
    forall|i: int, j: int| 0 <= i < j < rs.len() ==> rs[i].id@ != rs[j].id@
}

/// Some row carries this id.
pub open spec fn has_id(rs: Seq<TrackedEntity>, id: Seq<char>) -> bool {
    exists|i: int| 0 <= i < rs.len() && rs[i].id@ == id
}

/// The record stored under this id (meaningful when `has_id` holds and ids
/// are unique).
pub open spec fn record_at(rs: Seq<TrackedEntity>, id: Seq<char>) -> RecordModel {
    rs[choose|i: int| 0 <= i < rs.len() && rs[i].id@ == id]@
}

/// The rows as a map from id to stored record.
pub open spec fn store_view(rs: Seq<TrackedEntity>) -> Map<Seq<char>, RecordModel> {
    Map::new(|id: Seq<char>| has_id(rs, id), |id: Seq<char>| record_at(rs, id))
}

/// With unique ids, any row carrying an id is the row the map holds for it.
pub proof fn lemma_record_at(rs: Seq<TrackedEntity>, i: int)
    requires
        ids_unique(rs),
        0 <= i < rs.len(),
    ensures
        has_id(rs, rs[i].id@),
        record_at(rs, rs[i].id@) == rs[i]@,
{
    let id = rs[i].id@;
    assert(has_id(rs, id));
    let j = choose|j: int| 0 <= j < rs.len() && rs[j].id@ == id;
    if i < j {
        assert(rs[i].id@ != rs[j].id@);
    } else if j < i {
        assert(rs[j].id@ != rs[i].id@);
    }
}

/// Replacing the row that holds an id acts on the map as an insert at that id.
pub proof fn lemma_view_update(rs: Seq<TrackedEntity>, i: int, e: TrackedEntity)
    requires
        ids_unique(rs),
        0 <= i < rs.len(),
        rs[i].id@ == e.id@,
    ensures
        ids_unique(rs.update(i, e)),
        store_view(rs.update(i, e)) == store_view(rs).insert(e.id@, e@),
{
    let rs1 = rs.update(i, e);
    assert forall|p: int| 0 <= p < rs1.len() implies rs1[p].id@ == rs[p].id@ by {
        if p == i {
            assert(rs1[p] == e);
        }
    }
    assert forall|p: int, q: int| 0 <= p < q < rs1.len() implies rs1[p].id@ != rs1[q].id@ by {
        assert(rs[p].id@ != rs[q].id@);
    }
    let m1 = store_view(rs1);
    let m2 = store_view(rs).insert(e.id@, e@);
    assert forall|k: Seq<char>| has_id(rs1, k) implies has_id(rs, k) by {
        let p = choose|p: int| 0 <= p < rs1.len() && rs1[p].id@ == k;
        assert(rs[p].id@ == k);
    }
    assert forall|k: Seq<char>| has_id(rs, k) implies has_id(rs1, k) by {
        let p = choose|p: int| 0 <= p < rs.len() && rs[p].id@ == k;
        assert(rs1[p].id@ == k);
    }
    assert(has_id(rs, e.id@));
    assert forall|k: Seq<char>| m1.dom().contains(k) implies #[trigger] m2.dom().contains(k) by {}
    assert forall|k: Seq<char>| m2.dom().contains(k) implies #[trigger] m1.dom().contains(k) by {}
    assert forall|k: Seq<char>| m1.dom().contains(k) implies m1[k] == m2[k] by {
        if k == e.id@ {
            lemma_record_at(rs1, i);
            assert(rs1[i] == e);
            assert(m1[k] == e@);
        } else {
            let p = choose|p: int| 0 <= p < rs1.len() && rs1[p].id@ == k;
            assert(p != i);
            assert(rs1[p] == rs[p]);
            lemma_record_at(rs1, p);
            lemma_record_at(rs, p);
        }
    }
    assert(m1 =~= m2);
}

/// Appending a row with a fresh id acts on the map as an insert at that id.
pub proof fn lemma_view_push(rs: Seq<TrackedEntity>, e: TrackedEntity)
    requires
        ids_unique(rs),
        !has_id(rs, e.id@),
    ensures
        ids_unique(rs.push(e)),
        store_view(rs.push(e)) == store_view(rs).insert(e.id@, e@),
{
    let rs1 = rs.push(e);
    let n = rs.len() as int;
    assert forall|p: int, q: int| 0 <= p < q < rs1.len() implies rs1[p].id@ != rs1[q].id@ by {
        if q == n {
            assert(rs1[p] == rs[p]);
            if rs[p].id@ == e.id@ {
                assert(has_id(rs, e.id@));
            }
        } else {
            assert(rs1[p] == rs[p]);
            assert(rs1[q] == rs[q]);
            assert(rs[p].id@ != rs[q].id@);
        }
    }
    let m1 = store_view(rs1);
    let m2 = store_view(rs).insert(e.id@, e@);
    assert forall|k: Seq<char>| m1.dom().contains(k) implies #[trigger] m2.dom().contains(k) by {
        let p = choose|p: int| 0 <= p < rs1.len() && rs1[p].id@ == k;
        if p < n {
            assert(rs[p].id@ == k);
        }
    }
    assert forall|k: Seq<char>| m2.dom().contains(k) implies #[trigger] m1.dom().contains(k) by {
        if k == e.id@ {
            assert(rs1[n].id@ == k);
        } else {
            let p = choose|p: int| 0 <= p < rs.len() && rs[p].id@ == k;
            assert(rs1[p].id@ == k);
        }
    }
    assert forall|k: Seq<char>| m1.dom().contains(k) implies m1[k] == m2[k] by {
        if k == e.id@ {
            lemma_record_at(rs1, n);
            assert(rs1[n] == e);
        } else {
            let p = choose|p: int| 0 <= p < rs1.len() && rs1[p].id@ == k;
            assert(p != n);
            assert(rs1[p] == rs[p]);
            lemma_record_at(rs1, p);
            lemma_record_at(rs, p);
        }
    }
    assert(m1 =~= m2);
}

/// With unique ids, the map holds exactly one entry per row.
pub proof fn lemma_store_view_card(rs: Seq<TrackedEntity>)
    requires
        ids_unique(rs),
    ensures
        store_view(rs).dom().finite(),
        store_view(rs).dom().len() == rs.len(),
    decreases rs.len(),
{
    if rs.len() == 0 {
        assert(store_view(rs).dom() =~= Set::<Seq<char>>::empty());
    } else {
        let dl = rs.drop_last();
        let last = rs.last();
        assert forall|p: int, q: int| 0 <= p < q < dl.len() implies dl[p].id@ != dl[q].id@ by {
            assert(rs[p].id@ != rs[q].id@);
        }
        lemma_store_view_card(dl);
        assert forall|k: Seq<char>| has_id(dl, k) implies has_id(rs, k) by {
            let p = choose|p: int| 0 <= p < dl.len() && dl[p].id@ == k;
            assert(rs[p].id@ == k);
        }
        assert forall|k: Seq<char>| has_id(rs, k) && k != last.id@ implies has_id(dl, k) by {
            let p = choose|p: int| 0 <= p < rs.len() && rs[p].id@ == k;
            assert(p < rs.len() - 1);
            assert(dl[p].id@ == k);
        }
        assert(has_id(rs, last.id@));
        if has_id(dl, last.id@) {
            let p = choose|p: int| 0 <= p < dl.len() && dl[p].id@ == last.id@;
            assert(rs[p].id@ == rs[rs.len() - 1].id@);
            assert(false);
        }
        assert(store_view(rs).dom() =~= store_view(dl).dom().insert(last.id@));
    }
}

/// The durable table of tracked entities, keyed by remote id.
pub struct RecordStore {
    pub records: Vec<TrackedEntity>,
}

impl View for RecordStore {
    type V = Map<Seq<char>, RecordModel>;

    open spec fn view(&self) -> Map<Seq<char>, RecordModel> {
        store_view(self.records@)
    }
}

impl RecordStore {
    pub open spec fn wf(&self) -> bool {
        ids_unique(self.records@)
    }

    /// An empty store.
    pub fn new() -> (s: RecordStore)
        ensures
            s.wf(),
            s@ == Map::<Seq<char>, RecordModel>::empty(),
    {
        let s = RecordStore { records: Vec::new() };
        proof {
            assert(s@ =~= Map::<Seq<char>, RecordModel>::empty());
        }
        s
    }

    /// The row index holding this id, if any.
    fn find_index(&self, id: &String) -> (r: Option<usize>)
        requires
            self.wf(),
        ensures
            match r {
                Some(i) => i < self.records@.len() && self.records@[i as int].id@ == id@,
                None => !has_id(self.records@, id@),
            },
    {
        let n = self.records.len();
        let mut i: usize = 0;
        while i < n
            invariant
                i <= n,
                n == self.records@.len(),
                forall|j: int| 0 <= j < i ==> self.records@[j].id@ != id@,
            decreases n - i,
        {
            if self.records[i].id == *id {
                return Some(i);
            }
            i = i + 1;
        }
        None
    }

    /// Looks an entity up by id.
    pub fn get(&self, id: &String) -> (r: Option<&TrackedEntity>)
        requires
            self.wf(),
        ensures
            match r {
                Some(e) => self@.contains_key(id@) && e.id@ == id@ && e@ == self@[id@],
                None => !self@.contains_key(id@),
            },
    {
        match self.find_index(id) {
            Some(i) => {
                proof {
                    lemma_record_at(self.records@, i as int);
                }
                Some(&self.records[i])
            },
            None => None,
        }
    }

    /// Whether an entity with this id is stored.
    pub fn contains(&self, id: &String) -> (r: bool)
        requires
            self.wf(),
        ensures
            r == self@.contains_key(id@),
    {
        self.get(id).is_some()
    }

    /// The number of stored entities: one per tracked id.
    pub fn len(&self) -> (n: usize)
        requires
            self.wf(),
        ensures
            n == self.records@.len(),
            n == self@.dom().len(),
    {
        proof {
            lemma_store_view_card(self.records@);
        }
        self.records.len()
    }

    /// Upserts one entity: the stored record under its id becomes exactly the
    /// given row, whether or not one was there before.
    pub fn put(&mut self, e: TrackedEntity)
        requires
            old(self).wf(),
        ensures
            final(self).wf(),
            final(self)@ == old(self)@.insert(e.id@, e@),
    {
        let ghost rs0 = self.records@;
        match self.find_index(&e.id) {
            Some(i) => {
                let ghost iv = i as int;
                let ghost em = e;
                self.records.set(i, e);
                proof {
                    lemma_view_update(rs0, iv, em);
                }
            },
            None => {
                let ghost em = e;
                self.records.push(e);
                proof {
                    lemma_view_push(rs0, em);
                }
            },
        }
    }
}

} // verus!
