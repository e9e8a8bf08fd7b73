//! Batches: typed writes that are buffered and then applied as one unit.

use vstd::prelude::*;
use std::marker::PhantomData;
use crate::engine;
use crate::engine::{batch_writes, no_writes};
use crate::serialize::{SerDe, Serializer};

verus! {

/// A buffer of typed writes. Nothing reaches the store until the batch is
/// applied to a collection. For each key the batch holds the last write
/// made for it: a later write replaces an earlier one for the same encoded
/// key, as the same calls made one after another on the collection would.
pub struct TypedBatch<K, V, SD> {
    inner: sled::Batch,
    _marker: PhantomData<(K, V, SD)>,
}

impl<K, V, SD> View for TypedBatch<K, V, SD> {
    type V = Map<Seq<u8>, Option<Seq<u8>>>;

    /// The writes held: for each encoded key, the encoded value to store, or
    /// `None` where the key is to be removed.
    closed spec fn view(&self) -> Map<Seq<u8>, Option<Seq<u8>>> {
        batch_writes(self.inner)
    }
}

impl<K, V, SD: SerDe<K, V>> TypedBatch<K, V, SD> {
    /// A batch without writes.
    pub fn new() -> (batch: Self)
        ensures
            batch@ == no_writes(),
    {
        TypedBatch { inner: engine::batch_new(), _marker: PhantomData }
    }

    /// Adds the write that stores `value` under `key`.
    pub fn insert<Q: ?Sized>(&mut self, key: &Q, value: &V) where
        K: std::borrow::Borrow<Q>,
        SD::SK: Serializer<Q>,

        ensures
            final(self)@ == old(self)@.insert(
                <SD::SK as Serializer<Q>>::encoding(key),
                Some(SD::SV::encoding(value)),
            ),
    {
        let key_bytes = SD::SK::serialize(key);
        let value_bytes = SD::SV::serialize(value);
        engine::batch_insert(&mut self.inner, key_bytes, value_bytes);
    }

    /// Adds the write that removes `key`.
    pub fn remove<Q: ?Sized>(&mut self, key: &Q) where
        K: std::borrow::Borrow<Q>,
        SD::SK: Serializer<Q>,

        ensures
            final(self)@ == old(self)@.insert(<SD::SK as Serializer<Q>>::encoding(key), None),
    {
        let key_bytes = SD::SK::serialize(key);
        engine::batch_remove(&mut self.inner, key_bytes);
    }

    /// The engine batch that holds the writes.
    pub fn into_sled(self) -> (inner: sled::Batch)
        ensures
            batch_writes(inner) == self@,
    {
        self.inner
    }

    /// The engine batch that holds the writes.
    pub fn as_sled(&self) -> (inner: &sled::Batch)
        ensures
            batch_writes(*inner) == self@,
    {
        &self.inner
    }
}

/// What a store with contents `store` holds once the writes `writes` are
/// applied to it.
pub open spec fn applied(
    store: Map<Seq<u8>, Seq<u8>>,
    writes: Map<Seq<u8>, Option<Seq<u8>>>,
) -> Map<Seq<u8>, Seq<u8>> {
    Map::new(
        |k: Seq<u8>|
            (writes.dom().contains(k) && writes[k] is Some) || (!writes.dom().contains(k)
                && store.dom().contains(k)),
        |k: Seq<u8>|
            if writes.dom().contains(k) {
                writes[k].unwrap()
            } else {
                store[k]
            },
    )
}

/// A write added to a batch replaces the earlier write for the same key,
/// and leaves the writes for all other keys as they were.
pub proof fn lemma_later_write_wins(
    writes: Map<Seq<u8>, Option<Seq<u8>>>,
    key: Seq<u8>,
    earlier: Option<Seq<u8>>,
    later: Option<Seq<u8>>,
)
    ensures
        writes.insert(key, earlier).insert(key, later) == writes.insert(key, later),
{
    assert(writes.insert(key, earlier).insert(key, later) =~= writes.insert(key, later));
}

/// Applying a batch that was extended by one write gives what applying the
/// batch and then making that write on the store gives: adding writes to a
/// batch in some order has the effect of making them on the store in that
/// order.
pub proof fn lemma_batch_as_sequence(
    store: Map<Seq<u8>, Seq<u8>>,
    writes: Map<Seq<u8>, Option<Seq<u8>>>,
    key: Seq<u8>,
    write: Option<Seq<u8>>,
)
    ensures
        applied(store, writes.insert(key, write)) == match write {
            Some(value) => applied(store, writes).insert(key, value),
            None => applied(store, writes).remove(key),
        },
{
    let lhs = applied(store, writes.insert(key, write));
    let rhs = match write {
        Some(value) => applied(store, writes).insert(key, value),
        None => applied(store, writes).remove(key),
    };
    assert(lhs =~= rhs);
}

} // verus!
