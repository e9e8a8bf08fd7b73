//! Joins: looking up, for a value of one collection, the entries of a second
//! collection that the value refers to.

use vstd::prelude::*;
use std::sync::Arc;
use crate::error::TreeError;
use crate::serialize::{SerDe, Serializer, Value};
use crate::tree::{lookup_outcome, TypedTree};

verus! {

/// The pairs that a join hands out for the destination keys `keys`, where
/// `found[i]` is what the destination holds under `keys[i]`: each key that
/// was found, with its value, in the order of the keys. A key that was not
/// found leaves no trace.
pub open spec fn resolved<DK, DV>(keys: Seq<DK>, found: Seq<Option<DV>>) -> Seq<(DK, DV)>
    recommends
        keys.len() == found.len(),
    decreases keys.len(),
{
    if keys.len() == 0 || found.len() == 0 {
        Seq::empty()
    } else {
        let rest = resolved(keys.drop_last(), found.drop_last());
        match found.last() {
            Some(value) => rest.push((keys.last(), value)),
            None => rest,
        }
    }
}

/// A key that the destination does not hold adds nothing to the pairs of a
/// join, and a key that it holds adds that key with its value at the end.
pub proof fn lemma_resolved_step<DK, DV>(
    keys: Seq<DK>,
    found: Seq<Option<DV>>,
    key: DK,
    lookup: Option<DV>,
)
    requires
        keys.len() == found.len(),
    ensures
        resolved(keys.push(key), found.push(lookup)) == match lookup {
            Some(value) => resolved(keys, found).push((key, value)),
            None => resolved(keys, found),
        },
{
    assert(keys.push(key).drop_last() =~= keys);
    assert(found.push(lookup).drop_last() =~= found);
}

/// A join hands out at most one pair for each destination key.
pub proof fn lemma_resolved_len<DK, DV>(keys: Seq<DK>, found: Seq<Option<DV>>)
    requires
        keys.len() == found.len(),
    ensures
        resolved(keys, found).len() <= keys.len(),
    decreases keys.len(),
{
    if keys.len() > 0 {
        lemma_resolved_len(keys.drop_last(), found.drop_last());
    }
}

/// Where the destination holds every key, a join hands out one pair for
/// each; where it holds none, no pair at all.
pub proof fn lemma_resolved_all_or_none<DK, DV>(keys: Seq<DK>, found: Seq<Option<DV>>)
    requires
        keys.len() == found.len(),
    ensures
        (forall|i: int| 0 <= i < found.len() ==> found[i] is Some) ==> resolved(keys, found).len()
            == keys.len(),
        (forall|i: int| 0 <= i < found.len() ==> found[i] is None) ==> resolved(keys, found).len()
            == 0,
    decreases keys.len(),
{
    if keys.len() > 0 {
        lemma_resolved_all_or_none(keys.drop_last(), found.drop_last());
    }
}

/// Adds to `pairs` what one destination lookup gave: the key with its value
/// where there is one, nothing where there is none.
pub fn push_resolved<DK, DV>(pairs: &mut Vec<(DK, DV)>, key: DK, lookup: Option<DV>)
    ensures
        final(pairs)@ == match lookup {
            Some(value) => old(pairs)@.push((key, value)),
            None => old(pairs)@,
        },
{
    match lookup {
        Some(value) => pairs.push((key, value)),
        None => {},
    }
}

/// Calls `Arc::clone`.
///
/// Trusted: the new pointer points at the same value as the one given.
#[verifier::external_body]
fn share<T>(pointer: &Arc<T>) -> (shared: Arc<T>)
    ensures
        shared == *pointer,
{
    Arc::clone(pointer)
}

/// Whether `rows` are the pairs `pairs` of a join, each with the source
/// value `src` in front.
pub open spec fn flat_rows<S, DK, DV>(
    src: S,
    pairs: Seq<(DK, DV)>,
    rows: Seq<(Arc<S>, DK, DV)>,
) -> bool {
    &&& rows.len() == pairs.len()
    &&& forall|i: int|
        0 <= i < rows.len() ==> *(#[trigger] rows[i]).0 == src && rows[i].1 == pairs[i].0
            && rows[i].2 == pairs[i].1
}

/// Makes one row of each pair of a join. All rows share one copy of the
/// source value.
pub fn flatten<S, DK, DV>(src: S, pairs: Vec<(DK, DV)>) -> (rows: Vec<(Arc<S>, DK, DV)>)
    ensures
        flat_rows(src, pairs@, rows@),
{
    let shared = Arc::new(src);
    let mut rows: Vec<(Arc<S>, DK, DV)> = Vec::new();
    for pair in it: pairs
        invariant
            *shared == src,
            it.seq() == pairs@,
            flat_rows(src, pairs@.take(it.index() as int), rows@),
    {
        let (key, value) = pair;
        rows.push((share(&shared), key, value));
    }
    assert(pairs@.take(pairs@.len() as int) =~= pairs@);
    rows
}

/// A function that reads from a source value the destination keys that the
/// value refers to, in the order in which they are to be looked up.
pub trait JoinKeys<S, DK>: Fn(&S) -> Vec<DK> {

}

impl<S, DK, F> JoinKeys<S, DK> for F where F: Fn(&S) -> Vec<DK> {

}

/// Two collections that can be joined by a function of type `F`.
pub trait Join<F> {
    /// The join of the two.
    type Joined;

    /// Whether `joined` is the join of `self` by `joiner`.
    spec fn joins(&self, joiner: F, joined: Self::Joined) -> bool;

    /// Joins the first collection to the second by the destination keys
    /// that `joiner` reads from a value of the first.
    fn join(&self, joiner: F) -> (joined: Self::Joined)
        ensures
            self.joins(joiner, joined),
    ;
}

impl<'a, K, V, SD, DK, DV, DSD, F> Join<F> for (
    &'a TypedTree<K, V, SD>,
    &'a TypedTree<DK, DV, DSD>,
) where SD: SerDe<K, V>, DSD: SerDe<DK, DV>, F: JoinKeys<Value<K, V, SD>, DK> {
    type Joined = JoinTree<'a, TypedTree<K, V, SD>, TypedTree<DK, DV, DSD>, F>;

    open spec fn joins(&self, joiner: F, joined: Self::Joined) -> bool {
        &&& joined.extractor() == joiner
        &&& joined.source() == self.0
        &&& joined.destination() == self.1
    }

    fn join(&self, joiner: F) -> (joined: Self::Joined) {
        self::join(self.0, self.1, joiner)
    }
}

/// Whether `lookup` is what a collection can answer to a lookup: nothing,
/// or what its value deserializer hands out for some stored bytes.
pub open spec fn answered<K, V, SD: SerDe<K, V>>(lookup: Option<Value<K, V, SD>>) -> bool {
    exists|raw: Result<Option<Vec<u8>>, sled::Error>| #[trigger]
        lookup_outcome::<K, V, SD>(raw, Ok::<Option<Value<K, V, SD>>, TreeError>(lookup))
}

/// Whether `e` is a failure that a lookup in a collection can end with: a
/// failure of the engine, or stored bytes that do not decode.
pub open spec fn failed_lookup<K, V, SD: SerDe<K, V>>(e: TreeError) -> bool {
    exists|raw: Result<Option<Vec<u8>>, sled::Error>| #[trigger]
        lookup_outcome::<K, V, SD>(raw, Err::<Option<Value<K, V, SD>>, TreeError>(e))
}

/// Whether `out` is the flat form of what a join answered: its failure; no
/// rows where the source holds nothing; else one row for each pair, with
/// the source value in front.
pub open spec fn flat_from<S, DK, DV>(
    joined: Result<Option<(S, Vec<(DK, DV)>)>, TreeError>,
    out: Result<Vec<(Arc<S>, DK, DV)>, TreeError>,
) -> bool {
    match joined {
        Err(e) => out matches Err(failure) && failure == e,
        Ok(None) => out matches Ok(rows) && rows@.len() == 0,
        Ok(Some(found)) => out matches Ok(rows) && flat_rows(found.0, found.1@, rows@),
    }
}

/// A source collection, a destination collection, and the function that
/// reads from a source value the destination keys it refers to.
pub struct JoinTree<'a, Src, Dest, F> {
    src: &'a Src,
    dest: &'a Dest,
    keys: F,
}

/// What a join hands out for a source key: the source value and the pairs
/// resolved for it.
pub type Joined<K, V, SD, DK, DV, DSD> = (Value<K, V, SD>, Vec<(DK, Value<DK, DV, DSD>)>);

/// One row of a flat join.
pub type JoinedRow<K, V, SD, DK, DV, DSD> = (Arc<Value<K, V, SD>>, DK, Value<DK, DV, DSD>);

/// Joins `src` to `dest` by the destination keys that `keys` reads from a
/// source value.
pub fn join<'a, K, V, SD, DK, DV, DSD, F>(
    src: &'a TypedTree<K, V, SD>,
    dest: &'a TypedTree<DK, DV, DSD>,
    keys: F,
) -> (joined: JoinTree<'a, TypedTree<K, V, SD>, TypedTree<DK, DV, DSD>, F>) where
    SD: SerDe<K, V>,
    DSD: SerDe<DK, DV>,
    F: JoinKeys<Value<K, V, SD>, DK>,

    ensures
        joined.extractor() == keys,
        joined.source() == src,
        joined.destination() == dest,
{
    JoinTree { src, dest, keys }
}

impl<'a, K, V, SD, DK, DV, DSD, F> JoinTree<'a, TypedTree<K, V, SD>, TypedTree<DK, DV, DSD>, F> where
    SD: SerDe<K, V>,
    DSD: SerDe<DK, DV>,
    F: JoinKeys<Value<K, V, SD>, DK>,
 {
    /// The function that reads the destination keys from a source value.
    pub closed spec fn extractor(&self) -> F {
        self.keys
    }

    /// The source collection.
    pub closed spec fn source(&self) -> &'a TypedTree<K, V, SD> {
        self.src
    }

    /// The destination collection.
    pub closed spec fn destination(&self) -> &'a TypedTree<DK, DV, DSD> {
        self.dest
    }

    /// Whether `pairs` can be what the join resolves for the source value
    /// `src`: for the keys read from `src`, and for some answer of the
    /// destination to each of them, the keys that were found with their
    /// values, in the order of the keys.
    pub open spec fn resolves(&self, src: Value<K, V, SD>, pairs: Seq<(DK, Value<DK, DV, DSD>)>) -> bool {
        exists|keys: Vec<DK>, found: Seq<Option<Value<DK, DV, DSD>>>|
            {
                &&& self.extractor().ensures((&src,), keys)
                &&& found.len() == keys@.len()
                &&& forall|i: int|
                    0 <= i < found.len() ==> answered::<DK, DV, DSD>(#[trigger] found[i])
                &&& pairs == #[trigger] resolved(keys@, found)
            }
    }

    /// Whether no destination key can be read from `src`: then the join
    /// asks nothing of the destination.
    pub open spec fn extracts_nothing(&self, src: Value<K, V, SD>) -> bool {
        forall|keys: Vec<DK>| #[trigger] self.extractor().ensures((&src,), keys) ==> keys@.len() == 0
    }

    /// Whether `out` is what the join makes of the answer `source` of the
    /// source collection: its failure; nothing where the source holds
    /// nothing; else the source value with the pairs resolved for it, or the
    /// failure of a destination lookup, which there can only be where a
    /// destination key was read.
    pub open spec fn joined_from(
        &self,
        source: Result<Option<Value<K, V, SD>>, TreeError>,
        out: Result<Option<Joined<K, V, SD, DK, DV, DSD>>, TreeError>,
    ) -> bool {
        match source {
            Err(e) => out matches Err(failure) && failure == e,
            Ok(None) => out matches Ok(None),
            Ok(Some(src)) => match out {
                Ok(Some(joined)) => joined.0 == src && self.resolves(src, joined.1@),
                Ok(None) => false,
                Err(e) => failed_lookup::<DK, DV, DSD>(e) && !self.extracts_nothing(src),
            },
        }
    }

    /// Whether `out` is what the join makes of some answer of the source
    /// collection to a lookup.
    pub open spec fn get_outcome(
        &self,
        out: Result<Option<Joined<K, V, SD, DK, DV, DSD>>, TreeError>,
    ) -> bool {
        exists|
            raw: Result<Option<Vec<u8>>, sled::Error>,
            source: Result<Option<Value<K, V, SD>>, TreeError>,
        |
            #[trigger] lookup_outcome::<K, V, SD>(raw, source) && self.joined_from(source, out)
    }

    /// Looks `src` up in the destination, key by key. A key that the
    /// destination does not hold is passed over; a failure of a lookup ends
    /// the join with that failure.
    pub fn resolve(&self, src: &Value<K, V, SD>) -> (out: Result<
        Vec<(DK, Value<DK, DV, DSD>)>,
        TreeError,
    >)
        requires
            self.extractor().requires((src,)),
        ensures
            match out {
                Ok(pairs) => self.resolves(*src, pairs@),
                Err(e) => failed_lookup::<DK, DV, DSD>(e),
            },
            self.extracts_nothing(*src) ==> out is Ok,
    {
        let keys = (self.keys)(src);
        let ghost all_keys = keys;
        let mut pairs: Vec<(DK, Value<DK, DV, DSD>)> = Vec::new();
        let ghost mut found: Seq<Option<Value<DK, DV, DSD>>> = Seq::empty();
        for key in it: keys
            invariant
                it.seq() == all_keys@,
                self.extractor().ensures((src,), all_keys),
                found.len() == it.index(),
                forall|i: int| 0 <= i < found.len() ==> answered::<DK, DV, DSD>(#[trigger] found[i]),
                pairs@ == resolved(all_keys@.take(it.index() as int), found),
        {
            let ghost before = all_keys@.take(it.index() as int);
            match self.dest.get(&key) {
                Err(e) => {
                    assert(all_keys@.len() > 0);
                    return Err(e);
                },
                Ok(lookup) => {
                    proof {
                        lemma_resolved_step(before, found, key, lookup);
                        assert(all_keys@.take(it.index() + 1) =~= before.push(key));
                        assert(answered::<DK, DV, DSD>(lookup));
                        found = found.push(lookup);
                    }
                    push_resolved(&mut pairs, key, lookup);
                },
            }
        }
        assert(all_keys@.take(all_keys@.len() as int) =~= all_keys@);
        Ok(pairs)
    }

    /// The value stored under `key` in the source, with the destination
    /// entries it refers to; `None` where the source does not hold `key`.
    /// Destination keys that the destination does not hold are passed over
    /// without an error.
    pub fn get<Q: ?Sized>(&self, key: &Q) -> (out: Result<
        Option<Joined<K, V, SD, DK, DV, DSD>>,
        TreeError,
    >) where K: std::borrow::Borrow<Q>, SD::SK: Serializer<Q>
        requires
            forall|src: &Value<K, V, SD>| self.extractor().requires((src,)),
        ensures
            self.get_outcome(out),
    {
        let source = self.src.get(key);
        let ghost answer = source;
        let ghost raw = choose|raw: Result<Option<Vec<u8>>, sled::Error>|
            lookup_outcome::<K, V, SD>(raw, source);
        let out = match source {
            Err(e) => Err(e),
            Ok(None) => Ok(None),
            Ok(Some(src)) => match self.resolve(&src) {
                Err(e) => Err(e),
                Ok(pairs) => Ok(Some((src, pairs))),
            },
        };
        assert(lookup_outcome::<K, V, SD>(raw, answer) && self.joined_from(answer, out));
        out
    }

    /// As [`JoinTree::get`], with one row for each destination entry found.
    /// All rows share one copy of the source value. There are no rows where
    /// the source does not hold `key`.
    pub fn get_flat<Q: ?Sized>(&self, key: &Q) -> (out: Result<
        Vec<JoinedRow<K, V, SD, DK, DV, DSD>>,
        TreeError,
    >) where K: std::borrow::Borrow<Q>, SD::SK: Serializer<Q>
        requires
            forall|src: &Value<K, V, SD>| self.extractor().requires((src,)),
        ensures
            exists|joined: Result<Option<Joined<K, V, SD, DK, DV, DSD>>, TreeError>|
                self.get_outcome(joined) && #[trigger] flat_from(joined, out),
    {
        let joined = self.get(key);
        let ghost answer = joined;
        let out = match joined {
            Err(e) => Err(e),
            Ok(None) => Ok(Vec::new()),
            Ok(Some(found)) => {
                let (src, pairs) = found;
                Ok(flatten(src, pairs))
            },
        };
        assert(self.get_outcome(answer) && flat_from(answer, out));
        out
    }
}

} // verus!
