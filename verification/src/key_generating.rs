//! Collections whose keys are generated: the caller inserts values and is
//! told the key each one was stored under.

use vstd::prelude::*;
use std::sync::atomic::AtomicU64;
use std::sync::atomic::Ordering;
use std::sync::Arc;
use crate::batch::TypedBatch;
use crate::engine;
use crate::error::{Interrupt, TransactionFailure, TreeError, ViewError};
use crate::transaction::{transaction_outcome, view_outcome, TypedTransactionalTree};
use crate::serialize::{BincodeSerDe, Serializer, Value, KV};
use crate::engine::RawEntry;
use crate::serialize::decoding_u64;
use crate::tree::{boundary_outcome, lookup_outcome, TypedTree};

verus! {

/// A source of fresh keys for a collection.
///
/// An implementation must never hand out the same key twice while the
/// process lives, also when `next_key` is called from several threads at
/// once. Nothing verifies this of an implementation.
pub trait KeyGenerating<V>: Sized {
    /// The keys generated.
    type Key;

    /// The strategy of the collections that the keys are generated for.
    type SerDe: crate::serialize::SerDe<Self::Key, V>;

    /// Whether `generator` is what `initialize` makes on `tree`, for some
    /// answer of the store to what `initialize` asks of it.
    spec fn seeded(
        tree: &TypedTree<Self::Key, V, Self::SerDe>,
        generator: Result<Self, TreeError>,
    ) -> bool;

    /// Makes a generator that continues after the keys that `tree` holds.
    fn initialize(tree: &TypedTree<Self::Key, V, Self::SerDe>) -> (generator: Result<
        Self,
        TreeError,
    >)
        ensures
            Self::seeded(tree, generator),
    ;

    /// Whether `key` is a key that this generator can hand out.
    spec fn issues(&self, key: Self::Key) -> bool;

    /// A key that this generator has not handed out before.
    fn next_key(&self) -> (key: Self::Key)
        ensures
            self.issues(key),
    ;
}

/// What generating a key for a value and storing the value answers: the key,
/// and the value that was stored under it before.
pub type KGEntry<K, V, SD> = (K, Option<Value<K, V, SD>>);

/// The first key that a counter issues for a collection whose last entry
/// has the key `last`: zero for an empty collection, else the key after
/// `last`, and none where `last` is the greatest key there is.
pub open spec fn first_key_after(last: Option<u64>) -> Option<u64> {
    match last {
        None => Some(0u64),
        Some(k) => if k < u64::MAX {
            Some((k + 1) as u64)
        } else {
            None
        },
    }
}

/// Computes the first key that a counter issues for a collection whose last
/// entry has the key `last`.
pub fn counter_start(last: Option<u64>) -> (first: Option<u64>)
    ensures
        first == first_key_after(last),
{
    match last {
        None => Some(0),
        Some(k) => if k < u64::MAX {
            Some(k + 1)
        } else {
            None
        },
    }
}

/// Issues the keys 0, 1, 2, ... in turn. Opened on a collection that holds
/// keys already, it starts after the key of the collection's last entry, so
/// that a collection which is opened again goes on where it was left. A key
/// that was issued and never stored is not issued again. Clones of a counter
/// share one sequence.
///
/// The last entry is the last in the order of the encoded keys. The bincode
/// strategy stores integers least significant byte first, so the last entry
/// has the greatest key only while all keys are below 256: a collection
/// that holds the keys 0 to 256 is continued at 256, not at 257.
#[derive(Debug, Clone)]
pub struct Counter {
    next: Arc<AtomicU64>,
    first: u64,
}

/// Whether `out` is the counter made for a collection whose last entry the
/// engine answered with `raw`: a counter that starts at zero for an empty
/// collection and else after the key of that entry; no counter where that
/// key is the greatest there is; the failure of the engine where it failed;
/// and a decode failure where the entry does not hold a `u64` key and a `V`.
pub open spec fn counter_seeded<V: KV>(
    raw: Result<Option<RawEntry>, sled::Error>,
    out: Result<Counter, TreeError>,
) -> bool {
    match raw {
        Err(e) => out matches Err(TreeError::Storage(failure)) && failure == e,
        Ok(None) => out matches Ok(counter) && counter.first() == 0,
        Ok(Some(entry)) => if u64::decodable(entry.0@) && V::decodable(entry.1@) {
            match first_key_after(decoding_u64(entry.0@)) {
                Some(first) => out matches Ok(counter) && counter.first() == first,
                None => out matches Err(TreeError::KeysExhausted),
            }
        } else {
            out matches Err(TreeError::Decode)
        },
    }
}

impl Counter {
    /// The key that the counter was made to start at.
    pub closed spec fn first(&self) -> u64 {
        self.first
    }

    /// A counter whose first key is `first`.
    pub fn starting_at(first: u64) -> (counter: Self)
        ensures
            counter.first() == first,
    {
        Counter { next: Arc::new(AtomicU64::new(first)), first }
    }

    /// Issues the next key. The counter is advanced by one atomic
    /// increment, so that no two calls, from whatever threads, are given the
    /// same key. No key before the first is ever issued: a counter that has
    /// run past the greatest key does not start again at zero, it stays at
    /// its first key.
    pub fn issue(&self) -> (key: u64)
        ensures
            key >= self.first(),
    {
        let drawn: u64 = self.next.fetch_add(1, Ordering::Relaxed);
        if drawn >= self.first {
            drawn
        } else {
            self.first
        }
    }
}

impl<V: KV> KeyGenerating<V> for Counter {
    type Key = u64;

    type SerDe = BincodeSerDe;

    open spec fn seeded(
        tree: &TypedTree<u64, V, BincodeSerDe>,
        generator: Result<Self, TreeError>,
    ) -> bool {
        exists|raw: Result<Option<RawEntry>, sled::Error>| counter_seeded::<V>(raw, generator)
    }

    fn initialize(tree: &TypedTree<u64, V, BincodeSerDe>) -> (generator: Result<Self, TreeError>) {
        let last = tree.last();
        let ghost raw = choose|raw: Result<Option<RawEntry>, sled::Error>|
            boundary_outcome::<u64, V, BincodeSerDe>(raw, last);
        let generator = match last {
            Err(e) => Err(e),
            Ok(last) => {
                let last_key = match last {
                    Some(entry) => Some(entry.0),
                    None => None,
                };
                match counter_start(last_key) {
                    Some(first) => Ok(Counter::starting_at(first)),
                    None => Err(TreeError::KeysExhausted),
                }
            },
        };
        assert(counter_seeded::<V>(raw, generator));
        generator
    }

    open spec fn issues(&self, key: u64) -> bool {
        key >= self.first()
    }

    fn next_key(&self) -> (key: u64) {
        self.issue()
    }
}

/// A collection together with the generator of its keys.
pub struct KeyGeneratingTree<KG: KeyGenerating<V>, V, SD> {
    key_generator: KG,
    inner: TypedTree<KG::Key, V, SD>,
}

/// A collection with keys 0, 1, 2, ... in the order of insertion.
pub type CounterTree<V> = KeyGeneratingTree<Counter, V, BincodeSerDe>;

impl<KG, V, SD> KeyGeneratingTree<KG, V, SD> where
    KG: KeyGenerating<V, SerDe = SD>,
    SD: crate::serialize::SerDe<KG::Key, V>,
 {
    /// Opens the collection named `id` in `db` and makes its generator from
    /// the keys it holds.
    pub fn open(db: &sled::Db, id: &str) -> (out: Result<Self, TreeError>)
        ensures
            match out {
                Ok(opened) => {
                    &&& opened.tree().name() == vstd::utf8::encode_utf8(id@)
                    &&& KG::seeded(&opened.tree(), Ok::<KG, TreeError>(opened.generator()))
                },
                Err(e) => e is Storage || exists|tree: TypedTree<KG::Key, V, SD>|
                    tree.name() == vstd::utf8::encode_utf8(id@) && #[trigger] KG::seeded(
                        &tree,
                        Err::<KG, TreeError>(e),
                    ),
            },
    {
        match TypedTree::open(db, id) {
            Err(e) => Err(e),
            Ok(tree) => match KG::initialize(&tree) {
                Err(e) => Err(e),
                Ok(key_generator) => Ok(KeyGeneratingTree { key_generator, inner: tree }),
            },
        }
    }

    /// The collection underneath.
    pub closed spec fn tree(&self) -> TypedTree<KG::Key, V, SD> {
        self.inner
    }

    /// The generator of this collection's keys.
    pub closed spec fn generator(&self) -> KG {
        self.key_generator
    }

    /// The collection underneath, for all operations that take a key.
    pub fn as_tree(&self) -> (tree: &TypedTree<KG::Key, V, SD>)
        ensures
            *tree == self.tree(),
    {
        &self.inner
    }

    /// The value stored under `key`, if there is one.
    pub fn get<Q: ?Sized>(&self, key: &Q) -> (out: Result<
        Option<Value<KG::Key, V, SD>>,
        TreeError,
    >) where KG::Key: std::borrow::Borrow<Q>, SD::SK: Serializer<Q>
        ensures
            exists|raw: Result<Option<Vec<u8>>, sled::Error>|
                lookup_outcome::<KG::Key, V, SD>(raw, out),
    {
        self.inner.get(key)
    }

    /// Generates a key, stores `value` under it, and hands out the key with
    /// the value that was there before.
    pub fn insert(&self, value: &V) -> (out: Result<KGEntry<KG::Key, V, SD>, TreeError>)
        ensures
            exists|raw: Result<Option<Vec<u8>>, sled::Error>|
                lookup_outcome::<KG::Key, V, SD>(raw, entry_value::<KG::Key, V, SD>(out)),
            out matches Ok(entry) ==> self.generator().issues(entry.0),
    {
        let key = self.key_generator.next_key();
        let res = self.inner.insert(&key, value);
        with_key::<KG::Key, V, SD>(key, res)
    }

    /// Stores `value` under a key of the caller's choice. Nothing keeps the
    /// generator from issuing that key later.
    pub fn insert_with_key<Q: ?Sized>(&self, key: &Q, value: &V) -> (out: Result<
        Option<Value<KG::Key, V, SD>>,
        TreeError,
    >) where KG::Key: std::borrow::Borrow<Q>, SD::SK: Serializer<Q>
        ensures
            exists|raw: Result<Option<Vec<u8>>, sled::Error>|
                lookup_outcome::<KG::Key, V, SD>(raw, out),
    {
        self.inner.insert(key, value)
    }

    /// Generates a key without storing anything.
    pub fn next_key(&self) -> (key: KG::Key)
        ensures
            self.generator().issues(key),
    {
        self.key_generator.next_key()
    }

    /// Generates a key, makes the value for that key with `f`, stores it,
    /// and hands out the key with the value that was there before.
    pub fn insert_fn<F: Fn(&KG::Key) -> V>(&self, f: F) -> (out: Result<
        KGEntry<KG::Key, V, SD>,
        TreeError,
    >)
        requires
            forall|key: &KG::Key| f.requires((key,)),
        ensures
            exists|raw: Result<Option<Vec<u8>>, sled::Error>|
                lookup_outcome::<KG::Key, V, SD>(raw, entry_value::<KG::Key, V, SD>(out)),
            out matches Ok(entry) ==> self.generator().issues(entry.0),
            out matches Ok(entry) ==> exists|value: V| f.ensures((&entry.0,), value),
    {
        let key = self.key_generator.next_key();
        let value = f(&key);
        let res = self.insert_with_key(&key, &value);
        let out = with_key::<KG::Key, V, SD>(key, res);
        proof {
            if out is Ok {
                assert(out->Ok_0.0 == key);
                assert(f.ensures((&out->Ok_0.0,), value));
            }
        }
        out
    }

    /// Runs `f` as a transaction on this collection, on a view of this
    /// collection that has this collection's generator: inserts through the
    /// view and inserts on the collection draw their keys from one sequence.
    /// A key that an attempt took is not given back when the attempt is run
    /// again.
    ///
    /// The engine holds its write lock while `f` runs: an `f` that reads or
    /// writes the store other than through its view, or starts a transaction
    /// of its own, does not return.
    pub fn transaction<A, E, F>(&self, f: F) -> (out: Result<A, TransactionFailure<E>>) where
        F: Fn(KeyGeneratingTransactionalTree<'_, KG, V, SD>) -> Result<A, Interrupt<E>>,

        requires
            forall|view: KeyGeneratingTransactionalTree<'_, KG, V, SD>| f.requires((view,)),
        ensures
            transaction_outcome(
                f,
                |view: KeyGeneratingTransactionalTree<'_, KG, V, SD>|
                    *view.generator() == self.generator() && view.typed().name()
                        == self.tree().name(),
                out,
            ),
    {
        let mut trees: Vec<&sled::Tree> = Vec::new();
        trees.push(self.inner.as_sled());
        let body = &f;
        let attempt = |views: &Vec<sled::transaction::TransactionalTree>| -> (res: Result<
            A,
            Interrupt<E>,
        >)
            requires
                views.len() == 1,
            ensures
                exists|view: KeyGeneratingTransactionalTree<'_, KG, V, SD>|
                    {
                        &&& *view.generator() == self.generator()
                        &&& view.typed().name() == engine::view_name(views@[0])
                        &&& body.ensures((view,), res)
                    },
            { body(KeyGeneratingTransactionalTree::view(self, &views[0])) };
        engine::transact(trees, attempt)
    }

    /// The generator of this collection's keys.
    pub fn key_generator(&self) -> (generator: &KG)
        ensures
            *generator == self.generator(),
    {
        &self.key_generator
    }

    /// A batch without writes whose keys come from this collection's
    /// generator.
    pub fn new_batch(&self) -> (batch: KeyGeneratingBatch<'_, KG, V, SD>)
        ensures
            batch@ == crate::engine::no_writes(),
            *batch.generator() == self.generator(),
    {
        KeyGeneratingBatch { key_generator: self.key_generator(), inner: TypedBatch::new() }
    }

    /// Applies all writes of `batch` as one atomic unit.
    pub fn apply_batch(&self, batch: KeyGeneratingBatch<'_, KG, V, SD>) -> (out: Result<
        (),
        TreeError,
    >)
        ensures
            out matches Err(e) ==> e is Storage,
    {
        self.inner.apply_batch(batch.inner)
    }
}

/// The answer of the store in the answer of a generated insert.
pub open spec fn entry_value<K, V, SD: crate::serialize::SerDe<K, V>>(
    out: Result<KGEntry<K, V, SD>, TreeError>,
) -> Result<Option<Value<K, V, SD>>, TreeError> {
    match out {
        Ok(entry) => Ok(entry.1),
        Err(e) => Err(e),
    }
}

/// Pairs the key that was generated with the answer of the store.
pub fn with_key<K, V, SD: crate::serialize::SerDe<K, V>>(
    key: K,
    res: Result<Option<Value<K, V, SD>>, TreeError>,
) -> (out: Result<KGEntry<K, V, SD>, TreeError>)
    ensures
        match res {
            Ok(previous) => out == Ok::<KGEntry<K, V, SD>, TreeError>((key, previous)),
            Err(e) => out == Err::<KGEntry<K, V, SD>, TreeError>(e),
        },
{
    match res {
        Ok(previous) => Ok((key, previous)),
        Err(e) => Err(e),
    }
}

/// A batch whose inserts take their keys from a generator, in the order in
/// which they are made.
pub struct KeyGeneratingBatch<'a, KG: KeyGenerating<V>, V, SD> {
    key_generator: &'a KG,
    inner: TypedBatch<KG::Key, V, SD>,
}

impl<'a, KG: KeyGenerating<V>, V, SD> View for KeyGeneratingBatch<'a, KG, V, SD> {
    type V = Map<Seq<u8>, Option<Seq<u8>>>;

    /// The writes held, as in [`TypedBatch`].
    closed spec fn view(&self) -> Map<Seq<u8>, Option<Seq<u8>>> {
        self.inner@
    }
}

impl<'a, KG, V, SD> KeyGeneratingBatch<'a, KG, V, SD> where
    KG: KeyGenerating<V, SerDe = SD>,
    SD: crate::serialize::SerDe<KG::Key, V>,
 {
    /// The generator that the keys come from.
    pub closed spec fn generator(&self) -> &'a KG {
        self.key_generator
    }

    /// Generates a key and adds the write that stores `value` under it.
    pub fn insert(&mut self, value: &V)
        ensures
            final(self).generator() == old(self).generator(),
            exists|key: KG::Key|
                old(self).generator().issues(key) && final(self)@ == old(self)@.insert(
                    #[trigger] SD::SK::encoding(&key),
                    Some(SD::SV::encoding(value)),
                ),
    {
        let key = self.key_generator.next_key();
        self.inner.insert(&key, value);
    }

    /// Adds the write that removes `key`.
    pub fn remove<Q: ?Sized>(&mut self, key: &Q) where
        KG::Key: std::borrow::Borrow<Q>,
        SD::SK: Serializer<Q>,

        ensures
            final(self).generator() == old(self).generator(),
            final(self)@ == old(self)@.insert(<SD::SK as Serializer<Q>>::encoding(key), None),
    {
        self.inner.remove(key)
    }
}

/// A key-generating collection as seen from inside one attempt of a
/// transaction.
pub struct KeyGeneratingTransactionalTree<'a, KG: KeyGenerating<V>, V, SD> {
    key_generator: &'a KG,
    inner: TypedTransactionalTree<'a, KG::Key, V, SD>,
}

impl<'a, KG, V, SD> KeyGeneratingTransactionalTree<'a, KG, V, SD> where
    KG: KeyGenerating<V, SerDe = SD>,
    SD: crate::serialize::SerDe<KG::Key, V>,
 {
    /// The view of `tree` on the engine's view `view`, with the generator of
    /// `tree`.
    pub fn view(
        tree: &'a KeyGeneratingTree<KG, V, SD>,
        view: &'a sled::transaction::TransactionalTree,
    ) -> (out: Self)
        ensures
            *out.generator() == tree.generator(),
            out.typed().raw() == view,
            out.typed().name() == engine::view_name(*view),
    {
        KeyGeneratingTransactionalTree {
            key_generator: tree.key_generator(),
            inner: TypedTransactionalTree::new(view),
        }
    }

    /// The generator that the keys come from.
    pub closed spec fn generator(&self) -> &'a KG {
        self.key_generator
    }

    /// The view underneath.
    pub closed spec fn typed(&self) -> TypedTransactionalTree<'a, KG::Key, V, SD> {
        self.inner
    }

    /// The view underneath, for all operations that take a key.
    pub fn as_view(&self) -> (view: &TypedTransactionalTree<'a, KG::Key, V, SD>)
        ensures
            *view == self.typed(),
    {
        &self.inner
    }

    /// Generates a key, stores `value` under it, and hands out the value
    /// that was there before.
    pub fn insert(&self, value: &V) -> (out: Result<Option<Value<KG::Key, V, SD>>, ViewError>)
        ensures
            exists|raw: Result<Option<Vec<u8>>, sled::transaction::UnabortableTransactionError>|
                view_outcome::<KG::Key, V, SD>(raw, out),
    {
        let key = self.key_generator.next_key();
        self.inner.insert(&key, value)
    }

    /// Makes all writes of `batch` part of the transaction. A batch without
    /// writes asks nothing of the engine and cannot fail.
    pub fn apply_batch(&self, batch: &KeyGeneratingBatch<'_, KG, V, SD>) -> (out: Result<
        (),
        ViewError,
    >)
        ensures
            out matches Err(e) ==> e is Engine,
            batch@ == engine::no_writes() ==> out is Ok,
    {
        self.inner.apply_batch(&batch.inner)
    }
}

} // verus!
