//! A collection: the records of one kind, each under its identifier, kept in
//! a region of its own.
//!
//! A collection is read as a map from identifier to record. Whatever the
//! region holds under an identifier is an entry; an entry whose bytes stand
//! for no record reads as `None`. Records that the collection itself stored
//! always read back as they were given.

use crate::error::{Entity, StoreError};
use crate::order::{
    enumerates, in_key_order, lemma_in_key_order_holds, lemma_in_key_order_single,
    lemma_keys_in_order,
};
use crate::record::{Owned, Record, MAX_RECORD_SIZE};
use crate::region::{
    lists_entries, map_contains, map_entries, map_get, map_init, map_insert, map_new, map_pairs,
    map_reload, RecordMap, Region,
};
use std::marker::PhantomData;
use vstd::prelude::*;

verus! {

/// What a listing of the entries `m` returns: the records by ascending
/// identifier. It fails where there is no entry, and where an entry is no
/// record.
pub open spec fn listing<V>(entity: Entity, m: Map<u64, Option<V>>) -> Result<Seq<V>, StoreError> {
    if forall|k: u64| !m.dom().contains(k) {
        Err(StoreError::NoneFound(entity))
    } else if exists|k: u64| m.dom().contains(k) && m[k] is None {
        Err(StoreError::Unreadable(entity))
    } else {
        Ok(in_key_order(m).map_values(|r: Option<V>| r->0))
    }
}

/// A collection with one entry, a record, lists that record.
pub proof fn lemma_listing_single<V>(entity: Entity, m: Map<u64, Option<V>>, key: u64, v: V)
    requires
        forall|k: u64| m.dom().contains(k) <==> k == key,
        m[key] == Some(v),
    ensures
        listing(entity, m) == Ok::<Seq<V>, StoreError>(seq![v]),
{
    assert(m.dom().contains(key));
    lemma_in_key_order_single(m, key);
    assert(listing(entity, m)->Ok_0 =~= seq![v]);
}

/// A listing that succeeds returns every record of the collection, and so
/// at least one.
pub proof fn lemma_listing_holds<V>(entity: Entity, m: Map<u64, Option<V>>, key: u64, v: V)
    requires
        m.dom().finite(),
        m.contains_pair(key, Some(v)),
    ensures
        listing(entity, m) matches Ok(all) ==> all.contains(v),
{
    if listing(entity, m) is Ok {
        lemma_in_key_order_holds(m, key);
        let all = in_key_order(m);
        let i = choose|i: int| 0 <= i < all.len() && all[i] == Some(v);
        assert(listing(entity, m)->Ok_0[i] == v);
    }
}

/// The test that keeps the records of `owner`.
pub open spec fn owned_by<R: Owned>(owner: u64) -> spec_fn(R::V) -> bool {
    |v: R::V| R::owner(v) == owner
}

/// What a listing of the entries `m` returns when only the records of
/// `owner` are asked for: those records by ascending identifier. It fails
/// where an entry is no record, and where no record is left.
pub open spec fn listing_owned<R: Owned>(m: Map<u64, Option<R::V>>, owner: u64) -> Result<
    Seq<R::V>,
    StoreError,
> {
    match listing(R::entity(), m) {
        Err(e) => Err(e),
        Ok(all) => {
            let owned = all.filter(owned_by::<R>(owner));
            if owned.len() == 0 {
                Err(StoreError::NoneFound(R::entity()))
            } else {
                Ok(owned)
            }
        },
    }
}

/// What the stored pairs `pairs` read as: the record of each pair, in the
/// order of the pairs.
pub open spec fn decoded<R: Record>(pairs: Seq<(u64, Vec<u8>)>) -> Result<Seq<R::V>, StoreError> {
    if pairs.len() == 0 {
        Err(StoreError::NoneFound(R::entity()))
    } else if exists|i: int| 0 <= i < pairs.len() && R::decoding(#[trigger] pairs[i].1@) is None {
        Err(StoreError::Unreadable(R::entity()))
    } else {
        Ok(Seq::new(pairs.len(), |i: int| R::decoding(pairs[i].1@)->0))
    }
}

/// What the stored pairs `pairs` read as when only the records of `owner`
/// are asked for.
pub open spec fn decoded_owned<R: Owned>(pairs: Seq<(u64, Vec<u8>)>, owner: u64) -> Result<
    Seq<R::V>,
    StoreError,
> {
    match decoded::<R>(pairs) {
        Err(e) => Err(e),
        Ok(all) => {
            let owned = all.filter(owned_by::<R>(owner));
            if owned.len() == 0 {
                Err(StoreError::NoneFound(R::entity()))
            } else {
                Ok(owned)
            }
        },
    }
}

/// Filtering one element more keeps it or leaves it out.
proof fn lemma_filter_step<A>(s: Seq<A>, pred: spec_fn(A) -> bool, i: int)
    requires
        0 <= i < s.len(),
    ensures
        s.take(i + 1).filter(pred) == if pred(s[i]) {
            s.take(i).filter(pred).push(s[i])
        } else {
            s.take(i).filter(pred)
        },
{
    reveal(Seq::filter);
    assert(s.take(i + 1).drop_last() =~= s.take(i));
}

/// The views of the records in `records`.
pub open spec fn views<R: Record>(records: Seq<R>) -> Seq<R::V> {
    records.map_values(|r: R| r@)
}

/// Whether `out` is `expected`, record for record.
pub open spec fn answers<R: Record>(
    out: Result<Vec<R>, StoreError>,
    expected: Result<Seq<R::V>, StoreError>,
) -> bool {
    match out {
        Ok(records) => expected == Ok::<Seq<R::V>, StoreError>(views(records@)),
        Err(e) => expected == Err::<Seq<R::V>, StoreError>(e),
    }
}

/// Decodes every pair of a collection's entries.
pub fn read_all<R: Record>(pairs: &Vec<(u64, Vec<u8>)>) -> (out: Result<Vec<R>, StoreError>)
    ensures
        answers(out, decoded::<R>(pairs@)),
        out matches Ok(records) ==> records@.len() > 0,
{
    if pairs.len() == 0 {
        return Err(StoreError::NoneFound(R::kind()));
    }
    let mut records: Vec<R> = Vec::new();
    let mut i: usize = 0;
    while i < pairs.len()
        invariant
            i <= pairs.len(),
            records@.len() == i,
            forall|j: int|
                0 <= j < i ==> R::decoding(#[trigger] pairs@[j].1@) == Some(records@[j]@),
        decreases pairs.len() - i,
    {
        match R::decode(pairs[i].1.as_slice()) {
            Some(record) => {
                records.push(record);
            },
            None => {
                return Err(StoreError::Unreadable(R::kind()));
            },
        }
        i = i + 1;
    }
    assert(views(records@) =~= Seq::new(pairs@.len(), |i: int| R::decoding(pairs@[i].1@)->0));
    Ok(records)
}

/// Decodes every pair of a collection's entries, and keeps the records of
/// `owner`.
pub fn read_owned<R: Owned>(pairs: &Vec<(u64, Vec<u8>)>, owner: u64) -> (out: Result<
    Vec<R>,
    StoreError,
>)
    ensures
        answers(out, decoded_owned::<R>(pairs@, owner)),
        out matches Ok(records) ==> records@.len() > 0,
{
    if pairs.len() == 0 {
        return Err(StoreError::NoneFound(R::kind()));
    }
    let ghost wanted = owned_by::<R>(owner);
    let ghost all = Seq::new(pairs@.len(), |i: int| R::decoding(pairs@[i].1@)->0);
    let mut records: Vec<R> = Vec::new();
    let mut i: usize = 0;
    while i < pairs.len()
        invariant
            i <= pairs.len(),
            wanted == owned_by::<R>(owner),
            all == Seq::new(pairs@.len(), |i: int| R::decoding(pairs@[i].1@)->0),
            forall|j: int| 0 <= j < i ==> R::decoding(#[trigger] pairs@[j].1@) is Some,
            views(records@) == all.take(i as int).filter(wanted),
        decreases pairs.len() - i,
    {
        match R::decode(pairs[i].1.as_slice()) {
            Some(record) => {
                proof {
                    lemma_filter_step(all, wanted, i as int);
                    assert(all[i as int] == record@);
                }
                if record.owner_id() == owner {
                    records.push(record);
                    assert(views(records@) =~= all.take(i + 1).filter(wanted));
                }
            },
            None => {
                return Err(StoreError::Unreadable(R::kind()));
            },
        }
        i = i + 1;
    }
    assert(all.take(i as int) =~= all);
    if records.len() == 0 {
        return Err(StoreError::NoneFound(R::kind()));
    }
    Ok(records)
}

/// The records of one kind.
pub struct Collection<R: Record> {
    map: RecordMap,
    kind: PhantomData<R>,
}

impl<R: Record> View for Collection<R> {
    type V = Map<u64, Option<R::V>>;

    closed spec fn view(&self) -> Map<u64, Option<R::V>> {
        map_entries(self.map).map_values(|bytes: Seq<u8>| R::decoding(bytes))
    }
}

impl<R: Record> Collection<R> {
    /// Whether `v` is small enough to be stored.
    pub open spec fn fits(v: R::V) -> bool {
        R::encoding(v).len() <= MAX_RECORD_SIZE
    }

    /// A collection without entries, in place of whatever `region` held.
    pub(crate) fn create(region: Region) -> (out: Self)
        ensures
            out@ == Map::<u64, Option<R::V>>::empty(),
    {
        let out = Collection { map: map_new(region), kind: PhantomData };
        assert(out@ =~= Map::<u64, Option<R::V>>::empty());
        out
    }

    /// The collection that `region` holds, or one without entries where the
    /// region holds none.
    pub(crate) fn open(region: Region) -> (out: Self)
        ensures
            out@.dom().finite(),
    {
        let out = Collection { map: map_init(region), kind: PhantomData };
        assert(out@.dom() =~= map_entries(out.map).dom());
        out
    }

    /// The collection as a restart finds it: it holds what this one holds.
    pub fn reopen(self) -> (out: Self)
        ensures
            out@ == self@,
    {
        Collection { map: map_reload(self.map), kind: PhantomData }
    }

    /// Whether there is an entry under `id`.
    pub fn contains(&self, id: u64) -> (found: bool)
        ensures
            found == self@.dom().contains(id),
    {
        map_contains(&self.map, id)
    }

    /// The record under `id`: `None` where there is no entry, or the entry
    /// is no record.
    pub fn get(&self, id: u64) -> (out: Option<R>)
        ensures
            match out {
                Some(record) => self@.contains_pair(id, Some(record@)),
                None => !self@.dom().contains(id) || self@[id] is None,
            },
    {
        match map_get(&self.map, id) {
            Some(bytes) => R::decode(bytes.as_slice()),
            None => None,
        }
    }

    /// Stores `bytes`, the encoding of `record`, under `id`.
    pub(crate) fn store(&mut self, id: u64, bytes: &Vec<u8>, record: &R)
        requires
            bytes@ == R::encoding(record@),
            bytes@.len() <= MAX_RECORD_SIZE,
        ensures
            final(self)@ == old(self)@.insert(id, Some(record@)),
    {
        proof {
            R::lemma_decoding_inverts_encoding(record@);
        }
        map_insert(&mut self.map, id, bytes.as_slice());
        assert(self@ =~= old(self)@.insert(id, Some(record@)));
    }

    /// Stores `record` under `id`, in place of what is there. A record whose
    /// encoding is too long is turned down, and the collection stays as it
    /// was.
    pub fn insert(&mut self, id: u64, record: &R) -> (out: Result<(), StoreError>)
        ensures
            match out {
                Ok(_) => Self::fits(record@) && final(self)@ == old(self)@.insert(
                    id,
                    Some(record@),
                ),
                Err(e) => e == StoreError::RecordTooLarge && !Self::fits(record@) && final(self)@
                    == old(self)@,
            },
    {
        match record.encode() {
            Some(bytes) => {
                self.store(id, &bytes, record);
                Ok(())
            },
            None => Err(StoreError::RecordTooLarge),
        }
    }

    /// Every record, by ascending identifier.
    pub fn list(&self) -> (out: Result<Vec<R>, StoreError>)
        ensures
            answers(out, listing(R::entity(), self@)),
            out matches Ok(records) ==> records@.len() > 0,
    {
        let pairs = map_pairs(&self.map);
        proof {
            self.lemma_pairs(pairs@);
        }
        read_all(&pairs)
    }

    /// What the pairs of the map read as is what the collection lists.
    proof fn lemma_pairs(&self, pairs: Seq<(u64, Vec<u8>)>)
        requires
            lists_entries(pairs, map_entries(self.map)),
        ensures
            decoded::<R>(pairs) == listing(R::entity(), self@),
    {
        let entries = map_entries(self.map);
        let keys = pairs.map_values(|p: (u64, Vec<u8>)| p.0);
        assert forall|k: u64| keys.contains(k) <==> self@.dom().contains(k) by {
            if keys.contains(k) {
                let i = choose|i: int| 0 <= i < keys.len() && keys[i] == k;
                assert(entries.contains_pair(pairs[i].0, pairs[i].1@));
            }
            if self@.dom().contains(k) {
                assert(entries.dom().contains(k));
                let i = choose|i: int| 0 <= i < pairs.len() && pairs[i].0 == k;
                assert(keys[i] == k);
            }
        }
        assert(enumerates(keys, self@.dom()));
        lemma_keys_in_order(keys, self@.dom());
        assert forall|i: int| 0 <= i < pairs.len() implies self@[keys[i]] == R::decoding(
            pairs[i].1@,
        ) by {
            assert(entries.contains_pair(pairs[i].0, pairs[i].1@));
        }
        if pairs.len() == 0 {
            assert forall|k: u64| !self@.dom().contains(k) by {
                assert(!keys.contains(k));
            }
        } else {
            assert(keys.contains(keys[0]));
            assert(self@.dom().contains(keys[0]));
            if exists|i: int| 0 <= i < pairs.len() && R::decoding(#[trigger] pairs[i].1@) is None {
                let i = choose|i: int|
                    0 <= i < pairs.len() && R::decoding(#[trigger] pairs[i].1@) is None;
                assert(keys.contains(keys[i]));
                assert(self@.dom().contains(keys[i]) && self@[keys[i]] is None);
            } else {
                if exists|k: u64| self@.dom().contains(k) && self@[k] is None {
                    let k = choose|k: u64| self@.dom().contains(k) && self@[k] is None;
                    assert(keys.contains(k));
                    let i = choose|i: int| 0 <= i < keys.len() && keys[i] == k;
                    assert(R::decoding(pairs[i].1@) is None);
                }
                assert(in_key_order(self@).map_values(|r: Option<R::V>| r->0) =~= Seq::new(
                    pairs.len(),
                    |i: int| R::decoding(pairs[i].1@)->0,
                ));
            }
        }
    }
}

impl<R: Owned> Collection<R> {
    /// The records of `owner`, by ascending identifier.
    pub fn list_owned(&self, owner: u64) -> (out: Result<Vec<R>, StoreError>)
        ensures
            answers(out, listing_owned::<R>(self@, owner)),
            out matches Ok(records) ==> records@.len() > 0,
    {
        let pairs = map_pairs(&self.map);
        proof {
            self.lemma_pairs(pairs@);
        }
        read_owned(&pairs, owner)
    }
}

} // verus!
