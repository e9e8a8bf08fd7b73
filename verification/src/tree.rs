//! Typed collections: a key type, a value type and a serialization strategy
//! over one named byte collection of the store.

use vstd::prelude::*;
use vstd::slice::slice_to_vec;
use std::marker::PhantomData;
use crate::engine;
use crate::engine::{bytes_of, RawEntry, RawMismatch};
use crate::error::{CompareAndSwapError, TreeError};
use crate::serialize::{Deserializer, Key, SerDe, Serializer, Value, KV};
use crate::batch::TypedBatch;
use crate::iter::TypedIter;

verus! {

/// What a collection hands out for one key and its value.
pub type Entry<K, V, SD> = (Key<K, V, SD>, Value<K, V, SD>);

/// What a compare-and-swap on a collection answers.
pub type Swapped<K, V, SD> = Result<(), CompareAndSwapError<Value<K, V, SD>>>;

/// Whether `out` is what stored value bytes `raw` are handed out as: the
/// target that the value deserializer gives for them, absent where they are
/// absent, and a decode failure where the deserializer does not accept them.
pub open spec fn value_decoded<K, V, SD: SerDe<K, V>>(
    raw: Option<Seq<u8>>,
    out: Result<Option<Value<K, V, SD>>, TreeError>,
) -> bool {
    match raw {
        None => out == Ok::<Option<Value<K, V, SD>>, TreeError>(None),
        Some(bytes) => if SD::DV::accepts(bytes) {
            out matches Ok(Some(v)) && SD::DV::denotes(bytes, v)
        } else {
            out == Err::<Option<Value<K, V, SD>>, TreeError>(TreeError::Decode)
        },
    }
}

/// Whether `out` is what a stored entry with bytes `key` and `value` is
/// handed out as: both targets, or a decode failure where either
/// deserializer does not accept its part.
pub open spec fn entry_decoded<K, V, SD: SerDe<K, V>>(
    key: Seq<u8>,
    value: Seq<u8>,
    out: Result<Entry<K, V, SD>, TreeError>,
) -> bool {
    if SD::DK::accepts(key) && SD::DV::accepts(value) {
        out matches Ok(entry) && SD::DK::denotes(key, entry.0) && SD::DV::denotes(value, entry.1)
    } else {
        out == Err::<Entry<K, V, SD>, TreeError>(TreeError::Decode)
    }
}

/// Whether `out` is what the engine's answer `raw` to a lookup, an insert or
/// a removal becomes: an engine failure is handed on, anything else is
/// decoded.
pub open spec fn lookup_outcome<K, V, SD: SerDe<K, V>>(
    raw: Result<Option<Vec<u8>>, sled::Error>,
    out: Result<Option<Value<K, V, SD>>, TreeError>,
) -> bool {
    match raw {
        Err(e) => out == Err::<Option<Value<K, V, SD>>, TreeError>(TreeError::Storage(e)),
        Ok(found) => value_decoded::<K, V, SD>(bytes_of(found), out),
    }
}

/// Whether `out` is what the engine's answer `raw` to a boundary lookup
/// becomes.
pub open spec fn boundary_outcome<K, V, SD: SerDe<K, V>>(
    raw: Result<Option<RawEntry>, sled::Error>,
    out: Result<Option<Entry<K, V, SD>>, TreeError>,
) -> bool {
    match raw {
        Err(e) => out == Err::<Option<Entry<K, V, SD>>, TreeError>(TreeError::Storage(e)),
        Ok(None) => out == Ok::<Option<Entry<K, V, SD>>, TreeError>(None),
        Ok(Some(entry)) => if SD::DK::accepts(entry.0@) && SD::DV::accepts(entry.1@) {
            out matches Ok(Some(e)) && SD::DK::denotes(entry.0@, e.0) && SD::DV::denotes(
                entry.1@,
                e.1,
            )
        } else {
            out == Err::<Option<Entry<K, V, SD>>, TreeError>(TreeError::Decode)
        },
    }
}

/// Whether `out` is what the engine's answer `raw` to a compare-and-swap
/// becomes: success stays success; a mismatch carries the decoded current
/// and proposed values; an engine failure is handed on; and a mismatch whose
/// bytes cannot be decoded is a decode failure.
pub open spec fn swap_outcome<K, V, SD: SerDe<K, V>>(
    raw: Result<Result<(), RawMismatch>, sled::Error>,
    out: Result<Swapped<K, V, SD>, TreeError>,
) -> bool {
    match raw {
        Err(e) => out == Err::<Swapped<K, V, SD>, TreeError>(TreeError::Storage(e)),
        Ok(Ok(())) => out == Ok::<Swapped<K, V, SD>, TreeError>(Ok(())),
        Ok(Err(mismatch)) => {
            let current = bytes_of(mismatch.0);
            let proposed = bytes_of(mismatch.1);
            if (current matches Some(c) && !SD::DV::accepts(c)) || (proposed matches Some(p)
                && !SD::DV::accepts(p)) {
                out == Err::<Swapped<K, V, SD>, TreeError>(TreeError::Decode)
            } else {
                out matches Ok(Err(found)) && value_decoded::<K, V, SD>(
                    current,
                    Ok(found.current),
                ) && value_decoded::<K, V, SD>(proposed, Ok(found.proposed))
            }
        },
    }
}

/// Decodes stored value bytes, where there are any.
pub fn decode_value<K, V, SD: SerDe<K, V>>(raw: Option<Vec<u8>>) -> (out: Result<
    Option<Value<K, V, SD>>,
    TreeError,
>)
    ensures
        value_decoded::<K, V, SD>(bytes_of(raw), out),
{
    match raw {
        None => Ok(None),
        Some(bytes) => match SD::DV::deserialize(bytes) {
            Some(v) => Ok(Some(v)),
            None => Err(TreeError::Decode),
        },
    }
}

/// Decodes a stored entry.
pub fn decode_entry<K, V, SD: SerDe<K, V>>(raw: RawEntry) -> (out: Result<Entry<K, V, SD>, TreeError>)
    ensures
        entry_decoded::<K, V, SD>(raw.0@, raw.1@, out),
{
    let (key, value) = raw;
    match SD::DK::deserialize(key) {
        None => Err(TreeError::Decode),
        Some(k) => match SD::DV::deserialize(value) {
            None => Err(TreeError::Decode),
            Some(v) => Ok((k, v)),
        },
    }
}

/// Turns the engine's answer to a lookup, an insert or a removal into the
/// typed answer.
pub fn decode_lookup<K, V, SD: SerDe<K, V>>(raw: Result<Option<Vec<u8>>, sled::Error>) -> (out:
    Result<Option<Value<K, V, SD>>, TreeError>)
    ensures
        lookup_outcome::<K, V, SD>(raw, out),
{
    match raw {
        Err(e) => Err(TreeError::Storage(e)),
        Ok(found) => decode_value::<K, V, SD>(found),
    }
}

/// Turns the engine's answer to a boundary lookup into the typed answer.
pub fn decode_boundary<K, V, SD: SerDe<K, V>>(raw: Result<Option<RawEntry>, sled::Error>) -> (out:
    Result<Option<Entry<K, V, SD>>, TreeError>)
    ensures
        boundary_outcome::<K, V, SD>(raw, out),
{
    match raw {
        Err(e) => Err(TreeError::Storage(e)),
        Ok(None) => Ok(None),
        Ok(Some(entry)) => match decode_entry::<K, V, SD>(entry) {
            Ok(e) => Ok(Some(e)),
            Err(e) => Err(e),
        },
    }
}

/// Turns the engine's answer to a compare-and-swap into the typed answer.
pub fn decode_swap<K, V, SD: SerDe<K, V>>(raw: Result<Result<(), RawMismatch>, sled::Error>) -> (out:
    Result<Swapped<K, V, SD>, TreeError>)
    ensures
        swap_outcome::<K, V, SD>(raw, out),
{
    match raw {
        Err(e) => Err(TreeError::Storage(e)),
        Ok(Ok(())) => Ok(Ok(())),
        Ok(Err(mismatch)) => {
            let (current, proposed) = mismatch;
            match decode_value::<K, V, SD>(current) {
                Err(e) => Err(TreeError::Decode),
                Ok(current) => match decode_value::<K, V, SD>(proposed) {
                    Err(e) => Err(TreeError::Decode),
                    Ok(proposed) => Ok(Err(CompareAndSwapError { current, proposed })),
                },
            }
        },
    }
}

/// A function that merges an incoming value into the value stored under a
/// key: it is given the key, the stored value if there is one, and the
/// incoming value, and returns the value to store, or `None` to remove the
/// key.
pub trait MergeOperator<K, V>: Fn(K, Option<V>, V) -> Option<V> {

}

impl<K, V, F> MergeOperator<K, V> for F where F: Fn(K, Option<V>, V) -> Option<V> {

}

/// The bytes of an optional byte slice.
pub open spec fn opt_slice(raw: Option<&[u8]>) -> Option<Seq<u8>> {
    match raw {
        Some(bytes) => Some(bytes@),
        None => None,
    }
}

/// Whether a merge on these bytes can be handed to a typed merge function:
/// the key, the incoming value and the stored value, if there is one, all
/// decode.
pub open spec fn merge_decodes<K: KV, V: KV>(
    key: Seq<u8>,
    old: Option<Seq<u8>>,
    incoming: Seq<u8>,
) -> bool {
    &&& K::decodable(key)
    &&& V::decodable(incoming)
    &&& old matches Some(bytes) ==> V::decodable(bytes)
}

/// Whether `stored` is the stored value of a merge, decoded: nothing where
/// nothing is stored.
pub open spec fn merge_old<V: KV>(old: Option<Seq<u8>>, stored: Option<V>) -> bool {
    match old {
        Some(bytes) => stored matches Some(v) && V::decodes_to(bytes, v),
        None => stored is None,
    }
}

/// The bytes to store for what a typed merge function returned.
pub open spec fn merge_encoded<V: KV>(merged: Option<V>) -> Option<Seq<u8>> {
    match merged {
        Some(v) => Some(v.encoding()),
        None => None,
    }
}

/// Whether `out` is what merging `incoming` into `old` under `key` stores
/// with the typed merge function `f`: the encoding of what `f` returned for
/// the decoded arguments, and no value where `f` returned none. Where the
/// bytes do not decode, the stored value is left as it is.
pub open spec fn merge_outcome<K: KV, V: KV, F: Fn(K, Option<V>, V) -> Option<V>>(
    f: F,
    key: Seq<u8>,
    old: Option<Seq<u8>>,
    incoming: Seq<u8>,
    out: Option<Seq<u8>>,
) -> bool {
    if merge_decodes::<K, V>(key, old, incoming) {
        exists|k: K, stored: Option<V>, v: V, merged: Option<V>|
            {
                &&& K::decodes_to(key, k)
                &&& merge_old::<V>(old, stored)
                &&& V::decodes_to(incoming, v)
                &&& #[trigger] f.ensures((k, stored, v), merged)
                &&& out == merge_encoded::<V>(merged)
            }
    } else {
        out == old
    }
}

/// Merges on bytes with a typed merge function: decodes the key, the stored
/// value and the incoming value, calls `f`, and encodes what it returns.
pub fn merge_bytes<K: KV, V: KV, F: Fn(K, Option<V>, V) -> Option<V>>(
    f: &F,
    key: &[u8],
    old: Option<&[u8]>,
    incoming: &[u8],
) -> (out: Option<Vec<u8>>)
    requires
        forall|k: K, o: Option<V>, v: V| f.requires((k, o, v)),
    ensures
        merge_outcome::<K, V, F>(*f, key@, opt_slice(old), incoming@, bytes_of(out)),
{
    let unchanged = match old {
        Some(bytes) => Some(slice_to_vec(bytes)),
        None => None,
    };
    let k = match K::from_bytes(key) {
        Some(k) => k,
        None => { return unchanged; },
    };
    let v = match V::from_bytes(incoming) {
        Some(v) => v,
        None => { return unchanged; },
    };
    let o = match old {
        None => None,
        Some(bytes) => match V::from_bytes(bytes) {
            Some(o) => Some(o),
            None => { return unchanged; },
        },
    };
    match f(k, o, v) {
        Some(merged) => Some(merged.to_bytes()),
        None => None,
    }
}

/// The encoding of a bound of a range, where there is one.
pub open spec fn encoded_bound<K, V, SD: SerDe<K, V>>(bound: Option<&K>) -> Option<Seq<u8>> {
    match bound {
        Some(key) => Some(<SD::SK as Serializer<K>>::encoding(key)),
        None => None,
    }
}

/// A typed view over one named byte collection of a store. It owns no data:
/// the engine holds the bytes, and every handle opened under the same name
/// sees the same collection.
pub struct TypedTree<K, V, SD> {
    inner: sled::Tree,
    _marker: PhantomData<(K, V, SD)>,
}

impl<K, V, SD: SerDe<K, V>> TypedTree<K, V, SD> {
    /// Opens the collection named `id` in `db`, creating it where it does not
    /// exist yet.
    pub fn open(db: &sled::Db, id: &str) -> (tree: Result<Self, TreeError>)
        ensures
            tree matches Ok(opened) ==> opened.name() == vstd::utf8::encode_utf8(id@),
            tree matches Err(e) ==> e is Storage,
    {
        match engine::open_tree(db, id) {
            Ok(inner) => Ok(TypedTree { inner, _marker: PhantomData }),
            Err(e) => Err(TreeError::Storage(e)),
        }
    }

    /// Wraps an engine collection.
    pub fn from_sled(inner: sled::Tree) -> (tree: Self)
        ensures
            tree.inner() == inner,
    {
        TypedTree { inner, _marker: PhantomData }
    }

    /// The engine collection underneath.
    pub closed spec fn inner(&self) -> sled::Tree {
        self.inner
    }

    /// The name of the collection in its store, as bytes.
    pub closed spec fn name(&self) -> Seq<u8> {
        engine::tree_name(self.inner)
    }

    /// The engine collection underneath.
    pub fn as_sled(&self) -> (inner: &sled::Tree)
        ensures
            *inner == self.inner(),
            engine::tree_name(*inner) == self.name(),
    {
        &self.inner
    }

    /// The value stored under `key`, if there is one. The key may be given
    /// in any borrowed form of `K` that the key serializer takes.
    pub fn get<Q: ?Sized>(&self, key: &Q) -> (out: Result<Option<Value<K, V, SD>>, TreeError>) where
        K: std::borrow::Borrow<Q>,
        SD::SK: Serializer<Q>,

        ensures
            exists|raw: Result<Option<Vec<u8>>, sled::Error>| lookup_outcome::<K, V, SD>(raw, out),
    {
        let key_bytes = SD::SK::serialize(key);
        let raw = engine::tree_get(&self.inner, key_bytes.as_slice());
        decode_lookup::<K, V, SD>(raw)
    }

    /// Stores `value` under `key` and hands out the value that was there.
    pub fn insert<Q: ?Sized>(&self, key: &Q, value: &V) -> (out: Result<
        Option<Value<K, V, SD>>,
        TreeError,
    >) where K: std::borrow::Borrow<Q>, SD::SK: Serializer<Q>
        ensures
            exists|raw: Result<Option<Vec<u8>>, sled::Error>| lookup_outcome::<K, V, SD>(raw, out),
    {
        let key_bytes = SD::SK::serialize(key);
        let value_bytes = SD::SV::serialize(value);
        let raw = engine::tree_insert(&self.inner, key_bytes, value_bytes);
        decode_lookup::<K, V, SD>(raw)
    }

    /// Removes `key` and hands out the value that was there.
    pub fn remove<Q: ?Sized>(&self, key: &Q) -> (out: Result<
        Option<Value<K, V, SD>>,
        TreeError,
    >) where K: std::borrow::Borrow<Q>, SD::SK: Serializer<Q>
        ensures
            exists|raw: Result<Option<Vec<u8>>, sled::Error>| lookup_outcome::<K, V, SD>(raw, out),
    {
        let key_bytes = SD::SK::serialize(key);
        let raw = engine::tree_remove(&self.inner, key_bytes.as_slice());
        decode_lookup::<K, V, SD>(raw)
    }

    /// Stores `new` under `key` if the value there is `old`, where `None`
    /// stands for no value. A mismatch is answered with the value found and
    /// the value proposed, and stores nothing.
    pub fn compare_and_swap<Q: ?Sized>(
        &self,
        key: &Q,
        old: Option<&V>,
        new: Option<&V>,
    ) -> (out: Result<Swapped<K, V, SD>, TreeError>) where
        K: std::borrow::Borrow<Q>,
        SD::SK: Serializer<Q>,

        ensures
            exists|raw: Result<Result<(), RawMismatch>, sled::Error>|
                swap_outcome::<K, V, SD>(raw, out),
    {
        let key_bytes = SD::SK::serialize(key);
        let old_bytes = match old {
            Some(v) => Some(SD::SV::serialize(v)),
            None => None,
        };
        let new_bytes = match new {
            Some(v) => Some(SD::SV::serialize(v)),
            None => None,
        };
        let raw = engine::tree_compare_and_swap(
            &self.inner,
            key_bytes.as_slice(),
            old_bytes,
            new_bytes,
        );
        decode_swap::<K, V, SD>(raw)
    }

    /// The entries whose encoded key is at or after the encoding of `from`
    /// and before the encoding of `until`, in the order of the encoded keys.
    /// An absent bound leaves that side open. This is the order of the keys
    /// themselves only where the key encoding preserves order.
    pub fn range(&self, from: Option<&K>, until: Option<&K>) -> (iter: TypedIter<K, V, SD>)
        ensures
            engine::walk_over(
                iter.raw(),
                engine::lower_or_least(encoded_bound::<K, V, SD>(from)),
                encoded_bound::<K, V, SD>(until),
            ),
    {
        let lo = match from {
            Some(k) => Some(SD::SK::serialize(k)),
            None => None,
        };
        let hi = match until {
            Some(k) => Some(SD::SK::serialize(k)),
            None => None,
        };
        TypedIter::from_sled(engine::tree_range(&self.inner, lo, hi))
    }

    /// All entries, in the order of the encoded keys: the walk from the
    /// empty key, which is the least of all, without an upper bound.
    pub fn iter(&self) -> (iter: TypedIter<K, V, SD>)
        ensures
            engine::walk_over(iter.raw(), Seq::empty(), None),
    {
        TypedIter::from_sled(engine::tree_range(&self.inner, None, None))
    }

    /// The entry with the least encoded key.
    pub fn first(&self) -> (out: Result<Option<Entry<K, V, SD>>, TreeError>)
        ensures
            exists|raw: Result<Option<RawEntry>, sled::Error>|
                boundary_outcome::<K, V, SD>(raw, out),
    {
        decode_boundary::<K, V, SD>(engine::tree_first(&self.inner))
    }

    /// The entry with the greatest encoded key.
    pub fn last(&self) -> (out: Result<Option<Entry<K, V, SD>>, TreeError>)
        ensures
            exists|raw: Result<Option<RawEntry>, sled::Error>|
                boundary_outcome::<K, V, SD>(raw, out),
    {
        decode_boundary::<K, V, SD>(engine::tree_last(&self.inner))
    }

    /// Merges `value` into what is stored under `key`, with the merge
    /// function that was set for this collection, and hands out what is
    /// stored then. Without a merge function the engine reports a failure.
    pub fn merge<Q: ?Sized>(&self, key: &Q, value: &V) -> (out: Result<
        Option<Value<K, V, SD>>,
        TreeError,
    >) where K: std::borrow::Borrow<Q>, SD::SK: Serializer<Q>
        ensures
            exists|raw: Result<Option<Vec<u8>>, sled::Error>| lookup_outcome::<K, V, SD>(raw, out),
    {
        let key_bytes = SD::SK::serialize(key);
        let value_bytes = SD::SV::serialize(value);
        let raw = engine::tree_merge(&self.inner, key_bytes.as_slice(), value_bytes.as_slice());
        decode_lookup::<K, V, SD>(raw)
    }

    /// Waits until every write acknowledged so far is on disk, and hands out
    /// the number of bytes written for that.
    pub fn flush(&self) -> (out: Result<usize, TreeError>)
        ensures
            out matches Err(e) ==> e is Storage,
    {
        match engine::tree_flush(&self.inner) {
            Ok(n) => Ok(n),
            Err(e) => Err(TreeError::Storage(e)),
        }
    }

    /// Applies all writes of `batch` as one atomic unit.
    pub fn apply_batch(&self, batch: TypedBatch<K, V, SD>) -> (out: Result<(), TreeError>)
        ensures
            out matches Err(e) ==> e is Storage,
    {
        match engine::tree_apply_batch(&self.inner, batch.into_sled()) {
            Ok(()) => Ok(()),
            Err(e) => Err(TreeError::Storage(e)),
        }
    }
}

impl<K: KV + 'static, V: KV + 'static, SD: SerDe<K, V>> TypedTree<K, V, SD> {
    /// Sets the function that [`TypedTree::merge`] merges with. A later
    /// `insert` stores its value as it is, without the function.
    pub fn set_merge_operator<F: MergeOperator<K, V> + 'static>(&self, f: F)
        requires
            forall|k: K, o: Option<V>, v: V| f.requires((k, o, v)),
    {
        let operator = move |key: &[u8], old: Option<&[u8]>, incoming: &[u8]| -> (out: Option<
            Vec<u8>,
        >) { merge_bytes::<K, V, F>(&f, key, old, incoming) };
        engine::tree_set_merge_operator(&self.inner, operator)
    }
}

} // verus!
