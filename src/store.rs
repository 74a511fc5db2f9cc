use vstd::prelude::*;
use crate::bundlepack::{BundlePack, PackView};

verus! {

/// A failure of the persistent store while writing a record.
#[derive(Debug, PartialEq, Eq)]
pub struct StoreError {
    pub reason: String,
}

/// A keyed store of packs. Its state is the map from pack id to the record
/// held for that id.
pub trait PackStore {
    spec fn records(&self) -> Map<Seq<char>, PackView>;

    /// Whether the store, in its present state, succeeds in writing `pack`.
    spec fn accepts(&self, pack: PackView) -> bool;

    fn has_item(&self, id: &String) -> (r: bool)
        ensures
            r == self.records().contains_key(id@),
    ;

    /// Inserts a record for a pack whose id is not held yet.
    fn push(&mut self, pack: &BundlePack) -> (r: Result<(), StoreError>)
        requires
            !old(self).records().contains_key(pack@.id),
        ensures
            r is Ok == old(self).accepts(pack@),
            r is Ok ==> final(self).records() == old(self).records().insert(pack@.id, pack@),
            r is Err ==> final(self).records() == old(self).records(),
    ;

    /// Overwrites the whole record held for the pack's id.
    fn update(&mut self, pack: &BundlePack) -> (r: Result<(), StoreError>)
        requires
            old(self).records().contains_key(pack@.id),
        ensures
            r is Ok == old(self).accepts(pack@),
            r is Ok ==> final(self).records() == old(self).records().insert(pack@.id, pack@),
            r is Err ==> final(self).records() == old(self).records(),
    ;

    /// Deletes the record for `id`, if there is one.
    fn remove(&mut self, id: &String)
        ensures
            final(self).records() == old(self).records().remove(id@),
    ;
}

/// The store's records after a successful reconciliation with `pack`: a new
/// id is inserted, a known id with no constraints left is removed, and a
/// known id with constraints is overwritten.
pub open spec fn synced(records: Map<Seq<char>, PackView>, pack: PackView) -> Map<Seq<char>, PackView> {
    if !records.contains_key(pack.id) {
        records.insert(pack.id, pack)
    } else if pack.constraints.is_empty() {
        records.remove(pack.id)
    } else {
        records.insert(pack.id, pack)
    }
}

/// The three outcomes of a successful reconciliation: a new id ends up held
/// with exactly the pack's state; a known id whose constraints are gone is
/// no longer held; a known id with constraints is held with exactly the new
/// state, whatever was stored before.
pub proof fn lemma_sync_outcomes(records: Map<Seq<char>, PackView>, pack: PackView)
    ensures
        !records.contains_key(pack.id) ==> synced(records, pack).contains_key(pack.id)
            && synced(records, pack)[pack.id] == pack
            && synced(records, pack).remove(pack.id) == records,
        records.contains_key(pack.id) && pack.constraints.is_empty()
            ==> !synced(records, pack).contains_key(pack.id),
        records.contains_key(pack.id) && !pack.constraints.is_empty()
            ==> synced(records, pack).contains_key(pack.id)
            && synced(records, pack)[pack.id] == pack
            && synced(records, pack)[pack.id].constraints == pack.constraints,
        forall|k: Seq<char>| k != pack.id ==> (#[trigger] synced(records, pack).contains_key(k)
            == records.contains_key(k)),
{
    if !records.contains_key(pack.id) {
        assert(records.insert(pack.id, pack).remove(pack.id) =~= records);
    }
}

impl BundlePack {
    /// Reconciles the store with this pack, keyed by its id. On a store
    /// failure the store is left as it was. Removal never fails; an insert or
    /// an overwrite fails exactly where the store does not accept the pack.
    pub fn sync<S: PackStore>(&self, store: &mut S) -> (r: Result<(), StoreError>)
        ensures
            r is Ok ==> final(store).records() == synced(old(store).records(), self@),
            r is Err ==> final(store).records() == old(store).records(),
            r is Ok == ((old(store).records().contains_key(self@.id) && self@.constraints.is_empty())
                || old(store).accepts(self@)),
    {
        if !store.has_item(self.key()) {
            store.push(self)
        } else if !self.has_constraints() {
            store.remove(self.key());
            Ok(())
        } else {
            store.update(self)
        }
    }
}

/// The records that a sequence of packs stands for: later entries override
/// earlier ones with the same id.
pub open spec fn records_of(packs: Seq<PackView>) -> Map<Seq<char>, PackView>
    decreases packs.len(),
{
    if packs.len() == 0 {
        Map::empty()
    } else {
        records_of(packs.drop_last()).insert(packs.last().id, packs.last())
    }
}

proof fn lemma_records_push(packs: Seq<PackView>, p: PackView)
    ensures
        records_of(packs.push(p)) == records_of(packs).insert(p.id, p),
{
    assert(packs.push(p).drop_last() =~= packs);
}

proof fn lemma_records_keys(packs: Seq<PackView>, k: Seq<char>)
    ensures
        records_of(packs).contains_key(k) <==> exists|j: int| 0 <= j < packs.len() && #[trigger] packs[j].id == k,
    decreases packs.len(),
{
    if packs.len() > 0 {
        let front = packs.drop_last();
        lemma_records_keys(front, k);
        if records_of(packs).contains_key(k) && packs.last().id != k {
            let j = choose|j: int| 0 <= j < front.len() && #[trigger] front[j].id == k;
            assert(packs[j].id == k);
        }
        if exists|j: int| 0 <= j < packs.len() && #[trigger] packs[j].id == k {
            let j = choose|j: int| 0 <= j < packs.len() && #[trigger] packs[j].id == k;
            if j < front.len() {
                assert(front[j].id == k);
            }
        }
    }
}

proof fn lemma_records_latest(packs: Seq<PackView>, k: Seq<char>, j: int)
    requires
        0 <= j < packs.len(),
        packs[j].id == k,
        forall|m: int| j < m < packs.len() ==> #[trigger] packs[m].id != k,
    ensures
        records_of(packs).contains_key(k),
        records_of(packs)[k] == packs[j],
    decreases packs.len(),
{
    if j < packs.len() - 1 {
        let front = packs.drop_last();
        assert forall|m: int| j < m < front.len() implies #[trigger] front[m].id != k by {
            assert(packs[m].id != k);
        }
        lemma_records_latest(front, k, j);
    }
}

/// A store held in memory, for tests and for agents without persistence.
pub struct MemStore {
    packs: Vec<BundlePack>,
}

impl MemStore {
    pub closed spec fn entries(&self) -> Seq<PackView> {
        self.packs@.map_values(|p: BundlePack| p@)
    }

    pub fn new() -> (r: MemStore)
        ensures
            r.records() == Map::<Seq<char>, PackView>::empty(),
    {
        let r = MemStore { packs: Vec::new() };
        assert(r.entries() =~= Seq::<PackView>::empty());
        r
    }

    /// Whether no record is held.
    pub fn is_empty(&self) -> (r: bool)
        ensures
            r == (self.records() == Map::<Seq<char>, PackView>::empty()),
    {
        let r = self.packs.len() == 0;
        proof {
            if r {
                assert(self.entries() =~= Seq::<PackView>::empty());
            } else {
                let e = self.entries();
                assert(e =~= e.drop_last().push(e.last()));
                lemma_records_push(e.drop_last(), e.last());
                assert(self.records().contains_key(e.last().id));
            }
        }
        r
    }

    /// A copy of the record held for `id`, if any.
    pub fn get(&self, id: &String) -> (r: Option<BundlePack>)
        ensures
            match r {
                Some(p) => self.records().contains_key(id@) && p@ == self.records()[id@],
                None => !self.records().contains_key(id@),
            },
    {
        let mut i: usize = self.packs.len();
        while i > 0
            invariant
                i <= self.packs@.len(),
                forall|j: int| i <= j < self.packs@.len() ==> #[trigger] self.entries()[j].id != id@,
            decreases i,
        {
            i = i - 1;
            let same = self.packs[i].key().eq(id);
            assert(self.entries()[i as int] == self.packs@[i as int]@);
            if same {
                proof {
                    lemma_records_latest(self.entries(), id@, i as int);
                }
                return Some(self.packs[i].snapshot());
            }
        }
        proof {
            lemma_records_keys(self.entries(), id@);
        }
        None
    }
}

impl PackStore for MemStore {
    closed spec fn records(&self) -> Map<Seq<char>, PackView> {
        records_of(self.entries())
    }

    /// Memory never refuses a write.
    open spec fn accepts(&self, pack: PackView) -> bool {
        true
    }

    fn has_item(&self, id: &String) -> (r: bool) {
        let mut i: usize = 0;
        while i < self.packs.len()
            invariant
                i <= self.packs@.len(),
                forall|j: int| 0 <= j < i ==> #[trigger] self.entries()[j].id != id@,
            decreases self.packs@.len() - i,
        {
            let same = self.packs[i].key().eq(id);
            assert(self.entries()[i as int] == self.packs@[i as int]@);
            if same {
                proof {
                    assert(self.entries()[i as int].id == id@);
                    lemma_records_keys(self.entries(), id@);
                }
                return true;
            }
            i = i + 1;
        }
        proof {
            lemma_records_keys(self.entries(), id@);
        }
        false
    }

    fn push(&mut self, pack: &BundlePack) -> (r: Result<(), StoreError>) {
        let ghost before = self.entries();
        self.packs.push(pack.snapshot());
        proof {
            assert(self.entries() =~= before.push(pack@));
            lemma_records_push(before, pack@);
        }
        Ok(())
    }

    fn update(&mut self, pack: &BundlePack) -> (r: Result<(), StoreError>) {
        let ghost before = self.records();
        self.remove(pack.key());
        let ghost mid = self.entries();
        self.packs.push(pack.snapshot());
        proof {
            assert(self.entries() =~= mid.push(pack@));
            lemma_records_push(mid, pack@);
            assert(self.records() =~= before.insert(pack@.id, pack@));
        }
        Ok(())
    }

    fn remove(&mut self, id: &String) {
        let ghost all = self.entries();
        let mut kept: Vec<BundlePack> = Vec::new();
        let mut i: usize = 0;
        while i < self.packs.len()
            invariant
                i <= self.packs@.len(),
                self.entries() == all,
                records_of(kept@.map_values(|p: BundlePack| p@)) == records_of(all.take(i as int)).remove(id@),
            decreases self.packs@.len() - i,
        {
            let ghost prev = kept@.map_values(|p: BundlePack| p@);
            proof {
                assert(all.take(i as int + 1).drop_last() =~= all.take(i as int));
                assert(all.take(i as int + 1).last() == all[i as int]);
            }
            let same = self.packs[i].key().eq(id);
            assert(all[i as int] == self.packs@[i as int]@);
            if !same {
                kept.push(self.packs[i].snapshot());
                proof {
                    assert(kept@.map_values(|p: BundlePack| p@) =~= prev.push(all[i as int]));
                    lemma_records_push(prev, all[i as int]);
                    assert(records_of(kept@.map_values(|p: BundlePack| p@)) =~= records_of(all.take(i as int + 1)).remove(id@));
                }
            } else {
                proof {
                    assert(records_of(prev) =~= records_of(all.take(i as int + 1)).remove(id@));
                }
            }
            i = i + 1;
        }
        proof {
            assert(all.take(all.len() as int) =~= all);
        }
        self.packs = kept;
    }
}

} // verus!
