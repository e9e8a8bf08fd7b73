//! Walking the entries of a collection in the order of its encoded keys.

use vstd::prelude::*;
use std::marker::PhantomData;
use crate::engine;
use crate::engine::RawEntry;
use crate::error::TreeError;
use crate::serialize::{Deserializer, Key, SerDe, Value};
use crate::tree::{decode_entry, entry_decoded, Entry};

verus! {

/// Whether `out` is what one step `raw` of the engine's walk becomes: the
/// end stays the end, an engine failure is handed on, an entry is decoded.
pub open spec fn step_outcome<K, V, SD: SerDe<K, V>>(
    raw: Option<Result<RawEntry, sled::Error>>,
    out: Option<Result<Entry<K, V, SD>, TreeError>>,
) -> bool {
    match raw {
        None => out is None,
        Some(Err(e)) => out == Some(Err::<Entry<K, V, SD>, TreeError>(TreeError::Storage(e))),
        Some(Ok(entry)) => out matches Some(o) && entry_decoded::<K, V, SD>(entry.0@, entry.1@, o),
    }
}

/// Turns one step of the engine's walk into the typed step.
pub fn decode_step<K, V, SD: SerDe<K, V>>(raw: Option<Result<RawEntry, sled::Error>>) -> (out:
    Option<Result<Entry<K, V, SD>, TreeError>>)
    ensures
        step_outcome::<K, V, SD>(raw, out),
{
    match raw {
        None => None,
        Some(Err(e)) => Some(Err(TreeError::Storage(e))),
        Some(Ok(entry)) => Some(decode_entry::<K, V, SD>(entry)),
    }
}

/// The key of a step of a walk: the end stays the end, a failure stays the
/// failure.
pub open spec fn key_of_step<K, V, SD: SerDe<K, V>>(
    step: Option<Result<Entry<K, V, SD>, TreeError>>,
) -> Option<Result<Key<K, V, SD>, TreeError>> {
    match step {
        None => None,
        Some(Err(e)) => Some(Err(e)),
        Some(Ok(entry)) => Some(Ok(entry.0)),
    }
}

/// The value of a step of a walk: the end stays the end, a failure stays
/// the failure.
pub open spec fn value_of_step<K, V, SD: SerDe<K, V>>(
    step: Option<Result<Entry<K, V, SD>, TreeError>>,
) -> Option<Result<Value<K, V, SD>, TreeError>> {
    match step {
        None => None,
        Some(Err(e)) => Some(Err(e)),
        Some(Ok(entry)) => Some(Ok(entry.1)),
    }
}

/// The key of a step.
pub fn step_key<K, V, SD: SerDe<K, V>>(step: Option<Result<Entry<K, V, SD>, TreeError>>) -> (out:
    Option<Result<Key<K, V, SD>, TreeError>>)
    ensures
        out == key_of_step::<K, V, SD>(step),
{
    match step {
        None => None,
        Some(Err(e)) => Some(Err(e)),
        Some(Ok(entry)) => Some(Ok(entry.0)),
    }
}

/// The value of a step.
pub fn step_value<K, V, SD: SerDe<K, V>>(step: Option<Result<Entry<K, V, SD>, TreeError>>) -> (out:
    Option<Result<Value<K, V, SD>, TreeError>>)
    ensures
        out == value_of_step::<K, V, SD>(step),
{
    match step {
        None => None,
        Some(Err(e)) => Some(Err(e)),
        Some(Ok(entry)) => Some(Ok(entry.1)),
    }
}

/// A walk over entries of a collection, from both ends. Each step reads the
/// store when it is taken.
pub struct TypedIter<K, V, SD> {
    inner: sled::Iter,
    _marker: PhantomData<(K, V, SD)>,
}

impl<K, V, SD: SerDe<K, V>> TypedIter<K, V, SD> {
    /// The walk of the engine underneath.
    pub closed spec fn raw(&self) -> sled::Iter {
        self.inner
    }

    /// Wraps a walk of the engine.
    pub fn from_sled(iter: sled::Iter) -> (out: Self)
        ensures
            out.raw() == iter,
    {
        TypedIter { inner: iter, _marker: PhantomData }
    }

    /// The next entry from the front, or `None` at the end. The upper
    /// bound of the walk stays as it is, and the encoded key of an entry
    /// that is handed out is before it.
    pub fn next(&mut self) -> (out: Option<Result<Entry<K, V, SD>, TreeError>>)
        ensures
            exists|raw: Option<Result<RawEntry, sled::Error>>|
                #[trigger] step_outcome::<K, V, SD>(raw, out) && engine::front_step(
                    old(self).raw(),
                    raw,
                    final(self).raw(),
                ),
    {
        decode_step::<K, V, SD>(engine::iter_next(&mut self.inner))
    }

    /// The next entry from the back, or `None` at the end. The lower bound
    /// of the walk stays as it is, the encoded key of an entry that is
    /// handed out is at or after it, and that key is the upper bound of the
    /// walk from then on: the two ends of a walk do not cross.
    pub fn next_back(&mut self) -> (out: Option<Result<Entry<K, V, SD>, TreeError>>)
        ensures
            exists|raw: Option<Result<RawEntry, sled::Error>>|
                #[trigger] step_outcome::<K, V, SD>(raw, out) && engine::back_step(
                    old(self).raw(),
                    raw,
                    final(self).raw(),
                ),
    {
        decode_step::<K, V, SD>(engine::iter_next_back(&mut self.inner))
    }

    /// The last entry of the walk: what a step from the back hands out.
    pub fn last(self) -> (out: Option<Result<Entry<K, V, SD>, TreeError>>)
        ensures
            exists|raw: Option<Result<RawEntry, sled::Error>>, left: sled::Iter|
                #[trigger] step_outcome::<K, V, SD>(raw, out) && #[trigger] engine::back_step(
                    self.raw(),
                    raw,
                    left,
                ),
    {
        let mut walk = self;
        let raw = engine::iter_next_back(&mut walk.inner);
        let ghost step = raw;
        let ghost left = walk.inner;
        let out = decode_step::<K, V, SD>(raw);
        assert(step_outcome::<K, V, SD>(step, out) && engine::back_step(self.raw(), step, left));
        out
    }

    /// The walk over the keys alone.
    pub fn keys(self) -> (out: Keys<K, V, SD>)
        ensures
            out.entries() == self,
    {
        Keys { inner: self }
    }

    /// The walk over the values alone.
    pub fn values(self) -> (out: Values<K, V, SD>)
        ensures
            out.entries() == self,
    {
        Values { inner: self }
    }
}

/// A walk over the keys of a collection.
pub struct Keys<K, V, SD> {
    inner: TypedIter<K, V, SD>,
}

impl<K, V, SD: SerDe<K, V>> Keys<K, V, SD> {
    /// The walk over the entries whose keys these are.
    pub closed spec fn entries(&self) -> TypedIter<K, V, SD> {
        self.inner
    }

    /// The next key from the front, or `None` at the end.
    pub fn next(&mut self) -> (out: Option<Result<Key<K, V, SD>, TreeError>>)
        ensures
            exists|raw: Option<Result<RawEntry, sled::Error>>, step|
                {
                    &&& #[trigger] step_outcome::<K, V, SD>(raw, step)
                    &&& engine::front_step(old(self).entries().raw(), raw, final(self).entries().raw())
                    &&& out == key_of_step::<K, V, SD>(step)
                },
    {
        step_key::<K, V, SD>(self.inner.next())
    }

    /// The next key from the back, or `None` at the end.
    pub fn next_back(&mut self) -> (out: Option<Result<Key<K, V, SD>, TreeError>>)
        ensures
            exists|raw: Option<Result<RawEntry, sled::Error>>, step|
                {
                    &&& #[trigger] step_outcome::<K, V, SD>(raw, step)
                    &&& engine::back_step(old(self).entries().raw(), raw, final(self).entries().raw())
                    &&& out == key_of_step::<K, V, SD>(step)
                },
    {
        step_key::<K, V, SD>(self.inner.next_back())
    }
}

/// A walk over the values of a collection.
pub struct Values<K, V, SD> {
    inner: TypedIter<K, V, SD>,
}

impl<K, V, SD: SerDe<K, V>> Values<K, V, SD> {
    /// The walk over the entries whose values these are.
    pub closed spec fn entries(&self) -> TypedIter<K, V, SD> {
        self.inner
    }

    /// The next value from the front, or `None` at the end.
    pub fn next(&mut self) -> (out: Option<Result<Value<K, V, SD>, TreeError>>)
        ensures
            exists|raw: Option<Result<RawEntry, sled::Error>>, step|
                {
                    &&& #[trigger] step_outcome::<K, V, SD>(raw, step)
                    &&& engine::front_step(old(self).entries().raw(), raw, final(self).entries().raw())
                    &&& out == value_of_step::<K, V, SD>(step)
                },
    {
        step_value::<K, V, SD>(self.inner.next())
    }

    /// The next value from the back, or `None` at the end.
    pub fn next_back(&mut self) -> (out: Option<Result<Value<K, V, SD>, TreeError>>)
        ensures
            exists|raw: Option<Result<RawEntry, sled::Error>>, step|
                {
                    &&& #[trigger] step_outcome::<K, V, SD>(raw, step)
                    &&& engine::back_step(old(self).entries().raw(), raw, final(self).entries().raw())
                    &&& out == value_of_step::<K, V, SD>(step)
                },
    {
        step_value::<K, V, SD>(self.inner.next_back())
    }
}

/// No key comes before itself.
pub proof fn lemma_bytes_before_irreflexive(a: Seq<u8>)
    ensures
        !engine::bytes_before(a, a),
    decreases a.len(),
{
    if a.len() > 0 {
        lemma_bytes_before_irreflexive(a.drop_first());
    }
}

/// A key that comes before a second, which comes before a third, comes
/// before the third.
pub proof fn lemma_bytes_before_transitive(a: Seq<u8>, b: Seq<u8>, c: Seq<u8>)
    requires
        engine::bytes_before(a, b),
        engine::bytes_before(b, c),
    ensures
        engine::bytes_before(a, c),
    decreases a.len(),
{
    if a.len() > 0 && a[0] == b[0] && b[0] == c[0] {
        lemma_bytes_before_transitive(a.drop_first(), b.drop_first(), c.drop_first());
    }
}

/// The two ends of a walk do not cross: once a step from the back has
/// handed out an entry, every entry that the next step from the front hands
/// out has its key before the key of that entry.
pub proof fn lemma_ends_do_not_cross(
    start: sled::Iter,
    back: Option<Result<RawEntry, sled::Error>>,
    between: sled::Iter,
    front: Option<Result<RawEntry, sled::Error>>,
    end: sled::Iter,
)
    requires
        engine::back_step(start, back, between),
        engine::front_step(between, front, end),
    ensures
        match (back, front) {
            (Some(Ok(last)), Some(Ok(first))) => engine::bytes_before(first.0@, last.0@),
            _ => true,
        },
{
}

/// On a walk that was made with an exclusive upper bound, every step from
/// the front leaves that bound in place and hands out only entries whose
/// key is before it.
pub proof fn lemma_front_steps_end_before_upper(
    before: sled::Iter,
    step: Option<Result<RawEntry, sled::Error>>,
    after: sled::Iter,
    upper: Seq<u8>,
)
    requires
        engine::iter_upper(before) == Some(upper),
        engine::front_step(before, step, after),
    ensures
        engine::iter_upper(after) == Some(upper),
        match step {
            Some(Ok(entry)) => engine::bytes_before(entry.0@, upper),
            _ => true,
        },
{
}

} // verus!
