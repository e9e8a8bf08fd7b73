//! Transactions: writes to one or several collections that reach the store
//! together or not at all.
//!
//! The body of a transaction is a function of views, one for each
//! collection, in the order in which the collections are given. The engine
//! runs the body, and runs it again from the start whenever the data it
//! touched was changed meanwhile. A body must therefore do nothing that can
//! be seen from outside but through its views.

use vstd::prelude::*;
use std::marker::PhantomData;
use crate::batch::TypedBatch;
use crate::engine;
use crate::engine::{attempted, decided_by_attempt};
use crate::error::{Interrupt, TransactionFailure, TreeError, ViewError};
use crate::serialize::{Deserializer, SerDe, Serializer, Value};
use crate::tree::TypedTree;

verus! {

/// Whether `out` is what the engine's answer `raw` to an operation on a view
/// becomes: a failure of the engine is handed on, anything else is decoded.
pub open spec fn view_outcome<K, V, SD: SerDe<K, V>>(
    raw: Result<Option<Vec<u8>>, sled::transaction::UnabortableTransactionError>,
    out: Result<Option<Value<K, V, SD>>, ViewError>,
) -> bool {
    match raw {
        Err(e) => out == Err::<Option<Value<K, V, SD>>, ViewError>(ViewError::Engine(e)),
        Ok(None) => out == Ok::<Option<Value<K, V, SD>>, ViewError>(None),
        Ok(Some(bytes)) => if SD::DV::accepts(bytes@) {
            out matches Ok(Some(v)) && SD::DV::denotes(bytes@, v)
        } else {
            out == Err::<Option<Value<K, V, SD>>, ViewError>(ViewError::Decode)
        },
    }
}

/// Turns the engine's answer to an operation on a view into the typed
/// answer.
pub fn decode_view<K, V, SD: SerDe<K, V>>(
    raw: Result<Option<Vec<u8>>, sled::transaction::UnabortableTransactionError>,
) -> (out: Result<Option<Value<K, V, SD>>, ViewError>)
    ensures
        view_outcome::<K, V, SD>(raw, out),
{
    match raw {
        Err(e) => Err(ViewError::Engine(e)),
        Ok(None) => Ok(None),
        Ok(Some(bytes)) => match SD::DV::deserialize(bytes) {
            Some(v) => Ok(Some(v)),
            None => Err(ViewError::Decode),
        },
    }
}

/// A collection as seen from inside one attempt of a transaction.
pub struct TypedTransactionalTree<'a, K, V, SD> {
    inner: &'a sled::transaction::TransactionalTree,
    _marker: PhantomData<(K, V, SD)>,
}

impl<'a, K, V, SD: SerDe<K, V>> TypedTransactionalTree<'a, K, V, SD> {
    /// The typed view on the engine's view `inner`.
    pub fn new(inner: &'a sled::transaction::TransactionalTree) -> (view: Self)
        ensures
            view.raw() == inner,
            view.name() == engine::view_name(*inner),
    {
        TypedTransactionalTree { inner, _marker: PhantomData }
    }

    /// The engine's view underneath.
    pub closed spec fn raw(&self) -> &'a sled::transaction::TransactionalTree {
        self.inner
    }

    /// The name of the collection that this is a view of, as bytes.
    pub closed spec fn name(&self) -> Seq<u8> {
        engine::view_name(*self.inner)
    }

    /// The engine's view underneath. A view of another kind on the same
    /// collection can be made from it inside the same attempt.
    pub fn as_sled(&self) -> (inner: &'a sled::transaction::TransactionalTree)
        ensures
            inner == self.raw(),
            engine::view_name(*inner) == self.name(),
    {
        self.inner
    }

    /// Stores `value` under `key` and hands out the value that was there.
    pub fn insert<Q: ?Sized>(&self, key: &Q, value: &V) -> (out: Result<
        Option<Value<K, V, SD>>,
        ViewError,
    >) where K: std::borrow::Borrow<Q>, SD::SK: Serializer<Q>
        ensures
            exists|raw: Result<Option<Vec<u8>>, sled::transaction::UnabortableTransactionError>|
                view_outcome::<K, V, SD>(raw, out),
    {
        let key_bytes = SD::SK::serialize(key);
        let value_bytes = SD::SV::serialize(value);
        decode_view::<K, V, SD>(engine::view_insert(self.inner, key_bytes, value_bytes))
    }

    /// Removes `key` and hands out the value that was there.
    pub fn remove<Q: ?Sized>(&self, key: &Q) -> (out: Result<
        Option<Value<K, V, SD>>,
        ViewError,
    >) where K: std::borrow::Borrow<Q>, SD::SK: Serializer<Q>
        ensures
            exists|raw: Result<Option<Vec<u8>>, sled::transaction::UnabortableTransactionError>|
                view_outcome::<K, V, SD>(raw, out),
    {
        let key_bytes = SD::SK::serialize(key);
        decode_view::<K, V, SD>(engine::view_remove(self.inner, key_bytes))
    }

    /// The value stored under `key`, if there is one.
    pub fn get<Q: ?Sized>(&self, key: &Q) -> (out: Result<
        Option<Value<K, V, SD>>,
        ViewError,
    >) where K: std::borrow::Borrow<Q>, SD::SK: Serializer<Q>
        ensures
            exists|raw: Result<Option<Vec<u8>>, sled::transaction::UnabortableTransactionError>|
                view_outcome::<K, V, SD>(raw, out),
    {
        let key_bytes = SD::SK::serialize(key);
        decode_view::<K, V, SD>(engine::view_get(self.inner, key_bytes.as_slice()))
    }

    /// Makes all writes of `batch` part of the transaction. A batch without
    /// writes asks nothing of the engine and cannot fail.
    pub fn apply_batch(&self, batch: &TypedBatch<K, V, SD>) -> (out: Result<(), ViewError>)
        ensures
            out matches Err(e) ==> e is Engine,
            batch@ == engine::no_writes() ==> out is Ok,
    {
        match engine::view_apply_batch(self.inner, batch.as_sled()) {
            Ok(()) => Ok(()),
            Err(e) => Err(ViewError::Engine(e)),
        }
    }

    /// Asks for the store to be flushed when the transaction commits.
    pub fn flush(&self) {
        engine::view_flush(self.inner)
    }

    /// An identifier from the engine's own sequence.
    pub fn generate_id(&self) -> (out: Result<u64, TreeError>)
        ensures
            out matches Err(e) ==> e is Storage,
    {
        match engine::view_generate_id(self.inner) {
            Ok(id) => Ok(id),
            Err(e) => Err(TreeError::Storage(e)),
        }
    }
}

/// Whether a transaction that ended with `out` ended as `body` did on views
/// of which `on` holds: with the value that the body returned, with the
/// value that it gave the transaction up with, or with the decode failure
/// that it met. Of a transaction that failed in the engine nothing is said.
pub open spec fn transaction_outcome<Views, A, E, F: Fn(Views) -> Result<A, Interrupt<E>>>(
    body: F,
    on: spec_fn(Views) -> bool,
    out: Result<A, TransactionFailure<E>>,
) -> bool {
    decided_by_attempt(out) ==> exists|views: Views|
        on(views) && #[trigger] body.ensures((views,), attempted(out))
}

impl<K, V, SD: SerDe<K, V>> TypedTree<K, V, SD> {
    /// Runs `f` as a transaction on this collection, on a view of this
    /// collection.
    ///
    /// The engine holds its write lock while `f` runs: an `f` that reads or
    /// writes the store other than through its views, or starts a transaction
    /// of its own, does not return.
    pub fn transaction<A, E, F>(&self, f: F) -> (out: Result<A, TransactionFailure<E>>) where
        F: Fn(TypedTransactionalTree<'_, K, V, SD>) -> Result<A, Interrupt<E>>,

        requires
            forall|view: TypedTransactionalTree<'_, K, V, SD>| f.requires((view,)),
        ensures
            transaction_outcome(
                f,
                |view: TypedTransactionalTree<'_, K, V, SD>| view.name() == self.name(),
                out,
            ),
    {
        let mut trees: Vec<&sled::Tree> = Vec::new();
        trees.push(self.as_sled());
        let body = &f;
        let attempt = |views: &Vec<sled::transaction::TransactionalTree>| -> (res: Result<
            A,
            Interrupt<E>,
        >)
            requires
                views.len() == 1,
            ensures
                exists|view: TypedTransactionalTree<'_, K, V, SD>|
                    view.name() == engine::view_name(views@[0]) && body.ensures((view,), res),
            { body(TypedTransactionalTree::new(&views[0])) };
        engine::transact(trees, attempt)
    }
}

/// Runs `f` as one transaction on two collections. The views are
/// handed to `f` in the order of the collections: each view is a view of
/// the collection at its place.
///
/// The engine holds its write lock while `f` runs: an `f` that reads or
/// writes the store other than through its views, or starts a transaction
/// of its own, does not return.
pub fn transaction2<K1, V1, S1, K2, V2, S2, A, E, F>(
    trees: (&TypedTree<K1, V1, S1>, &TypedTree<K2, V2, S2>),
    f: F,
) -> (out: Result<A, TransactionFailure<E>>) where
    S1: SerDe<K1, V1>,
    S2: SerDe<K2, V2>,
    F: Fn((TypedTransactionalTree<'_, K1, V1, S1>, TypedTransactionalTree<'_, K2, V2, S2>)) -> Result<A, Interrupt<E>>,

    requires
        forall|views: (TypedTransactionalTree<'_, K1, V1, S1>, TypedTransactionalTree<'_, K2, V2, S2>)| f.requires((views,)),
    ensures
        transaction_outcome(
            f,
            |views: (TypedTransactionalTree<'_, K1, V1, S1>, TypedTransactionalTree<'_, K2, V2, S2>)|
                views.0.name() == trees.0.name()
                    && views.1.name() == trees.1.name(),
            out,
        ),
{
    let mut raw: Vec<&sled::Tree> = Vec::new();
    raw.push(trees.0.as_sled());
    raw.push(trees.1.as_sled());
    let body = &f;
    let attempt = |views: &Vec<sled::transaction::TransactionalTree>| -> (res: Result<
        A,
        Interrupt<E>,
    >)
        requires
            views.len() == 2,
        ensures
            exists|typed: (TypedTransactionalTree<'_, K1, V1, S1>, TypedTransactionalTree<'_, K2, V2, S2>)|
                {
                &&& typed.0.name() == engine::view_name(views@[0])
                &&& typed.1.name() == engine::view_name(views@[1])
                &&& #[trigger] body.ensures((typed,), res)
                },
        {
            body((
                TypedTransactionalTree::new(&views[0]),
                TypedTransactionalTree::new(&views[1]),
            ))
        };
    engine::transact(raw, attempt)
}

/// Runs `f` as one transaction on three collections. The views are
/// handed to `f` in the order of the collections: each view is a view of
/// the collection at its place.
///
/// The engine holds its write lock while `f` runs: an `f` that reads or
/// writes the store other than through its views, or starts a transaction
/// of its own, does not return.
pub fn transaction3<K1, V1, S1, K2, V2, S2, K3, V3, S3, A, E, F>(
    trees: (&TypedTree<K1, V1, S1>, &TypedTree<K2, V2, S2>, &TypedTree<K3, V3, S3>),
    f: F,
) -> (out: Result<A, TransactionFailure<E>>) where
    S1: SerDe<K1, V1>,
    S2: SerDe<K2, V2>,
    S3: SerDe<K3, V3>,
    F: Fn((TypedTransactionalTree<'_, K1, V1, S1>, TypedTransactionalTree<'_, K2, V2, S2>, TypedTransactionalTree<'_, K3, V3, S3>)) -> Result<A, Interrupt<E>>,

    requires
        forall|views: (TypedTransactionalTree<'_, K1, V1, S1>, TypedTransactionalTree<'_, K2, V2, S2>, TypedTransactionalTree<'_, K3, V3, S3>)| f.requires((views,)),
    ensures
        transaction_outcome(
            f,
            |views: (TypedTransactionalTree<'_, K1, V1, S1>, TypedTransactionalTree<'_, K2, V2, S2>, TypedTransactionalTree<'_, K3, V3, S3>)|
                views.0.name() == trees.0.name()
                    && views.1.name() == trees.1.name()
                    && views.2.name() == trees.2.name(),
            out,
        ),
{
    let mut raw: Vec<&sled::Tree> = Vec::new();
    raw.push(trees.0.as_sled());
    raw.push(trees.1.as_sled());
    raw.push(trees.2.as_sled());
    let body = &f;
    let attempt = |views: &Vec<sled::transaction::TransactionalTree>| -> (res: Result<
        A,
        Interrupt<E>,
    >)
        requires
            views.len() == 3,
        ensures
            exists|typed: (TypedTransactionalTree<'_, K1, V1, S1>, TypedTransactionalTree<'_, K2, V2, S2>, TypedTransactionalTree<'_, K3, V3, S3>)|
                {
                &&& typed.0.name() == engine::view_name(views@[0])
                &&& typed.1.name() == engine::view_name(views@[1])
                &&& typed.2.name() == engine::view_name(views@[2])
                &&& #[trigger] body.ensures((typed,), res)
                },
        {
            body((
                TypedTransactionalTree::new(&views[0]),
                TypedTransactionalTree::new(&views[1]),
                TypedTransactionalTree::new(&views[2]),
            ))
        };
    engine::transact(raw, attempt)
}

/// Runs `f` as one transaction on four collections. The views are
/// handed to `f` in the order of the collections: each view is a view of
/// the collection at its place.
///
/// The engine holds its write lock while `f` runs: an `f` that reads or
/// writes the store other than through its views, or starts a transaction
/// of its own, does not return.
pub fn transaction4<K1, V1, S1, K2, V2, S2, K3, V3, S3, K4, V4, S4, A, E, F>(
    trees: (&TypedTree<K1, V1, S1>, &TypedTree<K2, V2, S2>, &TypedTree<K3, V3, S3>, &TypedTree<K4, V4, S4>),
    f: F,
) -> (out: Result<A, TransactionFailure<E>>) where
    S1: SerDe<K1, V1>,
    S2: SerDe<K2, V2>,
    S3: SerDe<K3, V3>,
    S4: SerDe<K4, V4>,
    F: Fn((TypedTransactionalTree<'_, K1, V1, S1>, TypedTransactionalTree<'_, K2, V2, S2>, TypedTransactionalTree<'_, K3, V3, S3>, TypedTransactionalTree<'_, K4, V4, S4>)) -> Result<A, Interrupt<E>>,

    requires
        forall|views: (TypedTransactionalTree<'_, K1, V1, S1>, TypedTransactionalTree<'_, K2, V2, S2>, TypedTransactionalTree<'_, K3, V3, S3>, TypedTransactionalTree<'_, K4, V4, S4>)| f.requires((views,)),
    ensures
        transaction_outcome(
            f,
            |views: (TypedTransactionalTree<'_, K1, V1, S1>, TypedTransactionalTree<'_, K2, V2, S2>, TypedTransactionalTree<'_, K3, V3, S3>, TypedTransactionalTree<'_, K4, V4, S4>)|
                views.0.name() == trees.0.name()
                    && views.1.name() == trees.1.name()
                    && views.2.name() == trees.2.name()
                    && views.3.name() == trees.3.name(),
            out,
        ),
{
    let mut raw: Vec<&sled::Tree> = Vec::new();
    raw.push(trees.0.as_sled());
    raw.push(trees.1.as_sled());
    raw.push(trees.2.as_sled());
    raw.push(trees.3.as_sled());
    let body = &f;
    let attempt = |views: &Vec<sled::transaction::TransactionalTree>| -> (res: Result<
        A,
        Interrupt<E>,
    >)
        requires
            views.len() == 4,
        ensures
            exists|typed: (TypedTransactionalTree<'_, K1, V1, S1>, TypedTransactionalTree<'_, K2, V2, S2>, TypedTransactionalTree<'_, K3, V3, S3>, TypedTransactionalTree<'_, K4, V4, S4>)|
                {
                &&& typed.0.name() == engine::view_name(views@[0])
                &&& typed.1.name() == engine::view_name(views@[1])
                &&& typed.2.name() == engine::view_name(views@[2])
                &&& typed.3.name() == engine::view_name(views@[3])
                &&& #[trigger] body.ensures((typed,), res)
                },
        {
            body((
                TypedTransactionalTree::new(&views[0]),
                TypedTransactionalTree::new(&views[1]),
                TypedTransactionalTree::new(&views[2]),
                TypedTransactionalTree::new(&views[3]),
            ))
        };
    engine::transact(raw, attempt)
}

/// Runs `f` as one transaction on five collections. The views are
/// handed to `f` in the order of the collections: each view is a view of
/// the collection at its place.
///
/// The engine holds its write lock while `f` runs: an `f` that reads or
/// writes the store other than through its views, or starts a transaction
/// of its own, does not return.
pub fn transaction5<K1, V1, S1, K2, V2, S2, K3, V3, S3, K4, V4, S4, K5, V5, S5, A, E, F>(
    trees: (&TypedTree<K1, V1, S1>, &TypedTree<K2, V2, S2>, &TypedTree<K3, V3, S3>, &TypedTree<K4, V4, S4>, &TypedTree<K5, V5, S5>),
    f: F,
) -> (out: Result<A, TransactionFailure<E>>) where
    S1: SerDe<K1, V1>,
    S2: SerDe<K2, V2>,
    S3: SerDe<K3, V3>,
    S4: SerDe<K4, V4>,
    S5: SerDe<K5, V5>,
    F: Fn((TypedTransactionalTree<'_, K1, V1, S1>, TypedTransactionalTree<'_, K2, V2, S2>, TypedTransactionalTree<'_, K3, V3, S3>, TypedTransactionalTree<'_, K4, V4, S4>, TypedTransactionalTree<'_, K5, V5, S5>)) -> Result<A, Interrupt<E>>,

    requires
        forall|views: (TypedTransactionalTree<'_, K1, V1, S1>, TypedTransactionalTree<'_, K2, V2, S2>, TypedTransactionalTree<'_, K3, V3, S3>, TypedTransactionalTree<'_, K4, V4, S4>, TypedTransactionalTree<'_, K5, V5, S5>)| f.requires((views,)),
    ensures
        transaction_outcome(
            f,
            |views: (TypedTransactionalTree<'_, K1, V1, S1>, TypedTransactionalTree<'_, K2, V2, S2>, TypedTransactionalTree<'_, K3, V3, S3>, TypedTransactionalTree<'_, K4, V4, S4>, TypedTransactionalTree<'_, K5, V5, S5>)|
                views.0.name() == trees.0.name()
                    && views.1.name() == trees.1.name()
                    && views.2.name() == trees.2.name()
                    && views.3.name() == trees.3.name()
                    && views.4.name() == trees.4.name(),
            out,
        ),
{
    let mut raw: Vec<&sled::Tree> = Vec::new();
    raw.push(trees.0.as_sled());
    raw.push(trees.1.as_sled());
    raw.push(trees.2.as_sled());
    raw.push(trees.3.as_sled());
    raw.push(trees.4.as_sled());
    let body = &f;
    let attempt = |views: &Vec<sled::transaction::TransactionalTree>| -> (res: Result<
        A,
        Interrupt<E>,
    >)
        requires
            views.len() == 5,
        ensures
            exists|typed: (TypedTransactionalTree<'_, K1, V1, S1>, TypedTransactionalTree<'_, K2, V2, S2>, TypedTransactionalTree<'_, K3, V3, S3>, TypedTransactionalTree<'_, K4, V4, S4>, TypedTransactionalTree<'_, K5, V5, S5>)|
                {
                &&& typed.0.name() == engine::view_name(views@[0])
                &&& typed.1.name() == engine::view_name(views@[1])
                &&& typed.2.name() == engine::view_name(views@[2])
                &&& typed.3.name() == engine::view_name(views@[3])
                &&& typed.4.name() == engine::view_name(views@[4])
                &&& #[trigger] body.ensures((typed,), res)
                },
        {
            body((
                TypedTransactionalTree::new(&views[0]),
                TypedTransactionalTree::new(&views[1]),
                TypedTransactionalTree::new(&views[2]),
                TypedTransactionalTree::new(&views[3]),
                TypedTransactionalTree::new(&views[4]),
            ))
        };
    engine::transact(raw, attempt)
}

/// Runs `f` as one transaction on six collections. The views are
/// handed to `f` in the order of the collections: each view is a view of
/// the collection at its place.
///
/// The engine holds its write lock while `f` runs: an `f` that reads or
/// writes the store other than through its views, or starts a transaction
/// of its own, does not return.
pub fn transaction6<K1, V1, S1, K2, V2, S2, K3, V3, S3, K4, V4, S4, K5, V5, S5, K6, V6, S6, A, E, F>(
    trees: (&TypedTree<K1, V1, S1>, &TypedTree<K2, V2, S2>, &TypedTree<K3, V3, S3>, &TypedTree<K4, V4, S4>, &TypedTree<K5, V5, S5>, &TypedTree<K6, V6, S6>),
    f: F,
) -> (out: Result<A, TransactionFailure<E>>) where
    S1: SerDe<K1, V1>,
    S2: SerDe<K2, V2>,
    S3: SerDe<K3, V3>,
    S4: SerDe<K4, V4>,
    S5: SerDe<K5, V5>,
    S6: SerDe<K6, V6>,
    F: Fn((TypedTransactionalTree<'_, K1, V1, S1>, TypedTransactionalTree<'_, K2, V2, S2>, TypedTransactionalTree<'_, K3, V3, S3>, TypedTransactionalTree<'_, K4, V4, S4>, TypedTransactionalTree<'_, K5, V5, S5>, TypedTransactionalTree<'_, K6, V6, S6>)) -> Result<A, Interrupt<E>>,

    requires
        forall|views: (TypedTransactionalTree<'_, K1, V1, S1>, TypedTransactionalTree<'_, K2, V2, S2>, TypedTransactionalTree<'_, K3, V3, S3>, TypedTransactionalTree<'_, K4, V4, S4>, TypedTransactionalTree<'_, K5, V5, S5>, TypedTransactionalTree<'_, K6, V6, S6>)| f.requires((views,)),
    ensures
        transaction_outcome(
            f,
            |views: (TypedTransactionalTree<'_, K1, V1, S1>, TypedTransactionalTree<'_, K2, V2, S2>, TypedTransactionalTree<'_, K3, V3, S3>, TypedTransactionalTree<'_, K4, V4, S4>, TypedTransactionalTree<'_, K5, V5, S5>, TypedTransactionalTree<'_, K6, V6, S6>)|
                views.0.name() == trees.0.name()
                    && views.1.name() == trees.1.name()
                    && views.2.name() == trees.2.name()
                    && views.3.name() == trees.3.name()
                    && views.4.name() == trees.4.name()
                    && views.5.name() == trees.5.name(),
            out,
        ),
{
    let mut raw: Vec<&sled::Tree> = Vec::new();
    raw.push(trees.0.as_sled());
    raw.push(trees.1.as_sled());
    raw.push(trees.2.as_sled());
    raw.push(trees.3.as_sled());
    raw.push(trees.4.as_sled());
    raw.push(trees.5.as_sled());
    let body = &f;
    let attempt = |views: &Vec<sled::transaction::TransactionalTree>| -> (res: Result<
        A,
        Interrupt<E>,
    >)
        requires
            views.len() == 6,
        ensures
            exists|typed: (TypedTransactionalTree<'_, K1, V1, S1>, TypedTransactionalTree<'_, K2, V2, S2>, TypedTransactionalTree<'_, K3, V3, S3>, TypedTransactionalTree<'_, K4, V4, S4>, TypedTransactionalTree<'_, K5, V5, S5>, TypedTransactionalTree<'_, K6, V6, S6>)|
                {
                &&& typed.0.name() == engine::view_name(views@[0])
                &&& typed.1.name() == engine::view_name(views@[1])
                &&& typed.2.name() == engine::view_name(views@[2])
                &&& typed.3.name() == engine::view_name(views@[3])
                &&& typed.4.name() == engine::view_name(views@[4])
                &&& typed.5.name() == engine::view_name(views@[5])
                &&& #[trigger] body.ensures((typed,), res)
                },
        {
            body((
                TypedTransactionalTree::new(&views[0]),
                TypedTransactionalTree::new(&views[1]),
                TypedTransactionalTree::new(&views[2]),
                TypedTransactionalTree::new(&views[3]),
                TypedTransactionalTree::new(&views[4]),
                TypedTransactionalTree::new(&views[5]),
            ))
        };
    engine::transact(raw, attempt)
}

/// Runs `f` as one transaction on seven collections. The views are
/// handed to `f` in the order of the collections: each view is a view of
/// the collection at its place.
///
/// The engine holds its write lock while `f` runs: an `f` that reads or
/// writes the store other than through its views, or starts a transaction
/// of its own, does not return.
pub fn transaction7<K1, V1, S1, K2, V2, S2, K3, V3, S3, K4, V4, S4, K5, V5, S5, K6, V6, S6, K7, V7, S7, A, E, F>(
    trees: (&TypedTree<K1, V1, S1>, &TypedTree<K2, V2, S2>, &TypedTree<K3, V3, S3>, &TypedTree<K4, V4, S4>, &TypedTree<K5, V5, S5>, &TypedTree<K6, V6, S6>, &TypedTree<K7, V7, S7>),
    f: F,
) -> (out: Result<A, TransactionFailure<E>>) where
    S1: SerDe<K1, V1>,
    S2: SerDe<K2, V2>,
    S3: SerDe<K3, V3>,
    S4: SerDe<K4, V4>,
    S5: SerDe<K5, V5>,
    S6: SerDe<K6, V6>,
    S7: SerDe<K7, V7>,
    F: Fn((TypedTransactionalTree<'_, K1, V1, S1>, TypedTransactionalTree<'_, K2, V2, S2>, TypedTransactionalTree<'_, K3, V3, S3>, TypedTransactionalTree<'_, K4, V4, S4>, TypedTransactionalTree<'_, K5, V5, S5>, TypedTransactionalTree<'_, K6, V6, S6>, TypedTransactionalTree<'_, K7, V7, S7>)) -> Result<A, Interrupt<E>>,

    requires
        forall|views: (TypedTransactionalTree<'_, K1, V1, S1>, TypedTransactionalTree<'_, K2, V2, S2>, TypedTransactionalTree<'_, K3, V3, S3>, TypedTransactionalTree<'_, K4, V4, S4>, TypedTransactionalTree<'_, K5, V5, S5>, TypedTransactionalTree<'_, K6, V6, S6>, TypedTransactionalTree<'_, K7, V7, S7>)| f.requires((views,)),
    ensures
        transaction_outcome(
            f,
            |views: (TypedTransactionalTree<'_, K1, V1, S1>, TypedTransactionalTree<'_, K2, V2, S2>, TypedTransactionalTree<'_, K3, V3, S3>, TypedTransactionalTree<'_, K4, V4, S4>, TypedTransactionalTree<'_, K5, V5, S5>, TypedTransactionalTree<'_, K6, V6, S6>, TypedTransactionalTree<'_, K7, V7, S7>)|
                views.0.name() == trees.0.name()
                    && views.1.name() == trees.1.name()
                    && views.2.name() == trees.2.name()
                    && views.3.name() == trees.3.name()
                    && views.4.name() == trees.4.name()
                    && views.5.name() == trees.5.name()
                    && views.6.name() == trees.6.name(),
            out,
        ),
{
    let mut raw: Vec<&sled::Tree> = Vec::new();
    raw.push(trees.0.as_sled());
    raw.push(trees.1.as_sled());
    raw.push(trees.2.as_sled());
    raw.push(trees.3.as_sled());
    raw.push(trees.4.as_sled());
    raw.push(trees.5.as_sled());
    raw.push(trees.6.as_sled());
    let body = &f;
    let attempt = |views: &Vec<sled::transaction::TransactionalTree>| -> (res: Result<
        A,
        Interrupt<E>,
    >)
        requires
            views.len() == 7,
        ensures
            exists|typed: (TypedTransactionalTree<'_, K1, V1, S1>, TypedTransactionalTree<'_, K2, V2, S2>, TypedTransactionalTree<'_, K3, V3, S3>, TypedTransactionalTree<'_, K4, V4, S4>, TypedTransactionalTree<'_, K5, V5, S5>, TypedTransactionalTree<'_, K6, V6, S6>, TypedTransactionalTree<'_, K7, V7, S7>)|
                {
                &&& typed.0.name() == engine::view_name(views@[0])
                &&& typed.1.name() == engine::view_name(views@[1])
                &&& typed.2.name() == engine::view_name(views@[2])
                &&& typed.3.name() == engine::view_name(views@[3])
                &&& typed.4.name() == engine::view_name(views@[4])
                &&& typed.5.name() == engine::view_name(views@[5])
                &&& typed.6.name() == engine::view_name(views@[6])
                &&& #[trigger] body.ensures((typed,), res)
                },
        {
            body((
                TypedTransactionalTree::new(&views[0]),
                TypedTransactionalTree::new(&views[1]),
                TypedTransactionalTree::new(&views[2]),
                TypedTransactionalTree::new(&views[3]),
                TypedTransactionalTree::new(&views[4]),
                TypedTransactionalTree::new(&views[5]),
                TypedTransactionalTree::new(&views[6]),
            ))
        };
    engine::transact(raw, attempt)
}

/// Runs `f` as one transaction on eight collections. The views are
/// handed to `f` in the order of the collections: each view is a view of
/// the collection at its place.
///
/// The engine holds its write lock while `f` runs: an `f` that reads or
/// writes the store other than through its views, or starts a transaction
/// of its own, does not return.
pub fn transaction8<K1, V1, S1, K2, V2, S2, K3, V3, S3, K4, V4, S4, K5, V5, S5, K6, V6, S6, K7, V7, S7, K8, V8, S8, A, E, F>(
    trees: (&TypedTree<K1, V1, S1>, &TypedTree<K2, V2, S2>, &TypedTree<K3, V3, S3>, &TypedTree<K4, V4, S4>, &TypedTree<K5, V5, S5>, &TypedTree<K6, V6, S6>, &TypedTree<K7, V7, S7>, &TypedTree<K8, V8, S8>),
    f: F,
) -> (out: Result<A, TransactionFailure<E>>) where
    S1: SerDe<K1, V1>,
    S2: SerDe<K2, V2>,
    S3: SerDe<K3, V3>,
    S4: SerDe<K4, V4>,
    S5: SerDe<K5, V5>,
    S6: SerDe<K6, V6>,
    S7: SerDe<K7, V7>,
    S8: SerDe<K8, V8>,
    F: Fn((TypedTransactionalTree<'_, K1, V1, S1>, TypedTransactionalTree<'_, K2, V2, S2>, TypedTransactionalTree<'_, K3, V3, S3>, TypedTransactionalTree<'_, K4, V4, S4>, TypedTransactionalTree<'_, K5, V5, S5>, TypedTransactionalTree<'_, K6, V6, S6>, TypedTransactionalTree<'_, K7, V7, S7>, TypedTransactionalTree<'_, K8, V8, S8>)) -> Result<A, Interrupt<E>>,

    requires
        forall|views: (TypedTransactionalTree<'_, K1, V1, S1>, TypedTransactionalTree<'_, K2, V2, S2>, TypedTransactionalTree<'_, K3, V3, S3>, TypedTransactionalTree<'_, K4, V4, S4>, TypedTransactionalTree<'_, K5, V5, S5>, TypedTransactionalTree<'_, K6, V6, S6>, TypedTransactionalTree<'_, K7, V7, S7>, TypedTransactionalTree<'_, K8, V8, S8>)| f.requires((views,)),
    ensures
        transaction_outcome(
            f,
            |views: (TypedTransactionalTree<'_, K1, V1, S1>, TypedTransactionalTree<'_, K2, V2, S2>, TypedTransactionalTree<'_, K3, V3, S3>, TypedTransactionalTree<'_, K4, V4, S4>, TypedTransactionalTree<'_, K5, V5, S5>, TypedTransactionalTree<'_, K6, V6, S6>, TypedTransactionalTree<'_, K7, V7, S7>, TypedTransactionalTree<'_, K8, V8, S8>)|
                views.0.name() == trees.0.name()
                    && views.1.name() == trees.1.name()
                    && views.2.name() == trees.2.name()
                    && views.3.name() == trees.3.name()
                    && views.4.name() == trees.4.name()
                    && views.5.name() == trees.5.name()
                    && views.6.name() == trees.6.name()
                    && views.7.name() == trees.7.name(),
            out,
        ),
{
    let mut raw: Vec<&sled::Tree> = Vec::new();
    raw.push(trees.0.as_sled());
    raw.push(trees.1.as_sled());
    raw.push(trees.2.as_sled());
    raw.push(trees.3.as_sled());
    raw.push(trees.4.as_sled());
    raw.push(trees.5.as_sled());
    raw.push(trees.6.as_sled());
    raw.push(trees.7.as_sled());
    let body = &f;
    let attempt = |views: &Vec<sled::transaction::TransactionalTree>| -> (res: Result<
        A,
        Interrupt<E>,
    >)
        requires
            views.len() == 8,
        ensures
            exists|typed: (TypedTransactionalTree<'_, K1, V1, S1>, TypedTransactionalTree<'_, K2, V2, S2>, TypedTransactionalTree<'_, K3, V3, S3>, TypedTransactionalTree<'_, K4, V4, S4>, TypedTransactionalTree<'_, K5, V5, S5>, TypedTransactionalTree<'_, K6, V6, S6>, TypedTransactionalTree<'_, K7, V7, S7>, TypedTransactionalTree<'_, K8, V8, S8>)|
                {
                &&& typed.0.name() == engine::view_name(views@[0])
                &&& typed.1.name() == engine::view_name(views@[1])
                &&& typed.2.name() == engine::view_name(views@[2])
                &&& typed.3.name() == engine::view_name(views@[3])
                &&& typed.4.name() == engine::view_name(views@[4])
                &&& typed.5.name() == engine::view_name(views@[5])
                &&& typed.6.name() == engine::view_name(views@[6])
                &&& typed.7.name() == engine::view_name(views@[7])
                &&& #[trigger] body.ensures((typed,), res)
                },
        {
            body((
                TypedTransactionalTree::new(&views[0]),
                TypedTransactionalTree::new(&views[1]),
                TypedTransactionalTree::new(&views[2]),
                TypedTransactionalTree::new(&views[3]),
                TypedTransactionalTree::new(&views[4]),
                TypedTransactionalTree::new(&views[5]),
                TypedTransactionalTree::new(&views[6]),
                TypedTransactionalTree::new(&views[7]),
            ))
        };
    engine::transact(raw, attempt)
}

/// Runs `f` as one transaction on nine collections. The views are
/// handed to `f` in the order of the collections: each view is a view of
/// the collection at its place.
///
/// The engine holds its write lock while `f` runs: an `f` that reads or
/// writes the store other than through its views, or starts a transaction
/// of its own, does not return.
pub fn transaction9<K1, V1, S1, K2, V2, S2, K3, V3, S3, K4, V4, S4, K5, V5, S5, K6, V6, S6, K7, V7, S7, K8, V8, S8, K9, V9, S9, A, E, F>(
    trees: (&TypedTree<K1, V1, S1>, &TypedTree<K2, V2, S2>, &TypedTree<K3, V3, S3>, &TypedTree<K4, V4, S4>, &TypedTree<K5, V5, S5>, &TypedTree<K6, V6, S6>, &TypedTree<K7, V7, S7>, &TypedTree<K8, V8, S8>, &TypedTree<K9, V9, S9>),
    f: F,
) -> (out: Result<A, TransactionFailure<E>>) where
    S1: SerDe<K1, V1>,
    S2: SerDe<K2, V2>,
    S3: SerDe<K3, V3>,
    S4: SerDe<K4, V4>,
    S5: SerDe<K5, V5>,
    S6: SerDe<K6, V6>,
    S7: SerDe<K7, V7>,
    S8: SerDe<K8, V8>,
    S9: SerDe<K9, V9>,
    F: Fn((TypedTransactionalTree<'_, K1, V1, S1>, TypedTransactionalTree<'_, K2, V2, S2>, TypedTransactionalTree<'_, K3, V3, S3>, TypedTransactionalTree<'_, K4, V4, S4>, TypedTransactionalTree<'_, K5, V5, S5>, TypedTransactionalTree<'_, K6, V6, S6>, TypedTransactionalTree<'_, K7, V7, S7>, TypedTransactionalTree<'_, K8, V8, S8>, TypedTransactionalTree<'_, K9, V9, S9>)) -> Result<A, Interrupt<E>>,

    requires
        forall|views: (TypedTransactionalTree<'_, K1, V1, S1>, TypedTransactionalTree<'_, K2, V2, S2>, TypedTransactionalTree<'_, K3, V3, S3>, TypedTransactionalTree<'_, K4, V4, S4>, TypedTransactionalTree<'_, K5, V5, S5>, TypedTransactionalTree<'_, K6, V6, S6>, TypedTransactionalTree<'_, K7, V7, S7>, TypedTransactionalTree<'_, K8, V8, S8>, TypedTransactionalTree<'_, K9, V9, S9>)| f.requires((views,)),
    ensures
        transaction_outcome(
            f,
            |views: (TypedTransactionalTree<'_, K1, V1, S1>, TypedTransactionalTree<'_, K2, V2, S2>, TypedTransactionalTree<'_, K3, V3, S3>, TypedTransactionalTree<'_, K4, V4, S4>, TypedTransactionalTree<'_, K5, V5, S5>, TypedTransactionalTree<'_, K6, V6, S6>, TypedTransactionalTree<'_, K7, V7, S7>, TypedTransactionalTree<'_, K8, V8, S8>, TypedTransactionalTree<'_, K9, V9, S9>)|
                views.0.name() == trees.0.name()
                    && views.1.name() == trees.1.name()
                    && views.2.name() == trees.2.name()
                    && views.3.name() == trees.3.name()
                    && views.4.name() == trees.4.name()
                    && views.5.name() == trees.5.name()
                    && views.6.name() == trees.6.name()
                    && views.7.name() == trees.7.name()
                    && views.8.name() == trees.8.name(),
            out,
        ),
{
    let mut raw: Vec<&sled::Tree> = Vec::new();
    raw.push(trees.0.as_sled());
    raw.push(trees.1.as_sled());
    raw.push(trees.2.as_sled());
    raw.push(trees.3.as_sled());
    raw.push(trees.4.as_sled());
    raw.push(trees.5.as_sled());
    raw.push(trees.6.as_sled());
    raw.push(trees.7.as_sled());
    raw.push(trees.8.as_sled());
    let body = &f;
    let attempt = |views: &Vec<sled::transaction::TransactionalTree>| -> (res: Result<
        A,
        Interrupt<E>,
    >)
        requires
            views.len() == 9,
        ensures
            exists|typed: (TypedTransactionalTree<'_, K1, V1, S1>, TypedTransactionalTree<'_, K2, V2, S2>, TypedTransactionalTree<'_, K3, V3, S3>, TypedTransactionalTree<'_, K4, V4, S4>, TypedTransactionalTree<'_, K5, V5, S5>, TypedTransactionalTree<'_, K6, V6, S6>, TypedTransactionalTree<'_, K7, V7, S7>, TypedTransactionalTree<'_, K8, V8, S8>, TypedTransactionalTree<'_, K9, V9, S9>)|
                {
                &&& typed.0.name() == engine::view_name(views@[0])
                &&& typed.1.name() == engine::view_name(views@[1])
                &&& typed.2.name() == engine::view_name(views@[2])
                &&& typed.3.name() == engine::view_name(views@[3])
                &&& typed.4.name() == engine::view_name(views@[4])
                &&& typed.5.name() == engine::view_name(views@[5])
                &&& typed.6.name() == engine::view_name(views@[6])
                &&& typed.7.name() == engine::view_name(views@[7])
                &&& typed.8.name() == engine::view_name(views@[8])
                &&& #[trigger] body.ensures((typed,), res)
                },
        {
            body((
                TypedTransactionalTree::new(&views[0]),
                TypedTransactionalTree::new(&views[1]),
                TypedTransactionalTree::new(&views[2]),
                TypedTransactionalTree::new(&views[3]),
                TypedTransactionalTree::new(&views[4]),
                TypedTransactionalTree::new(&views[5]),
                TypedTransactionalTree::new(&views[6]),
                TypedTransactionalTree::new(&views[7]),
                TypedTransactionalTree::new(&views[8]),
            ))
        };
    engine::transact(raw, attempt)
}

/// Runs `f` as one transaction on ten collections. The views are
/// handed to `f` in the order of the collections: each view is a view of
/// the collection at its place.
///
/// The engine holds its write lock while `f` runs: an `f` that reads or
/// writes the store other than through its views, or starts a transaction
/// of its own, does not return.
pub fn transaction10<K1, V1, S1, K2, V2, S2, K3, V3, S3, K4, V4, S4, K5, V5, S5, K6, V6, S6, K7, V7, S7, K8, V8, S8, K9, V9, S9, K10, V10, S10, A, E, F>(
    trees: (&TypedTree<K1, V1, S1>, &TypedTree<K2, V2, S2>, &TypedTree<K3, V3, S3>, &TypedTree<K4, V4, S4>, &TypedTree<K5, V5, S5>, &TypedTree<K6, V6, S6>, &TypedTree<K7, V7, S7>, &TypedTree<K8, V8, S8>, &TypedTree<K9, V9, S9>, &TypedTree<K10, V10, S10>),
    f: F,
) -> (out: Result<A, TransactionFailure<E>>) where
    S1: SerDe<K1, V1>,
    S2: SerDe<K2, V2>,
    S3: SerDe<K3, V3>,
    S4: SerDe<K4, V4>,
    S5: SerDe<K5, V5>,
    S6: SerDe<K6, V6>,
    S7: SerDe<K7, V7>,
    S8: SerDe<K8, V8>,
    S9: SerDe<K9, V9>,
    S10: SerDe<K10, V10>,
    F: Fn((TypedTransactionalTree<'_, K1, V1, S1>, TypedTransactionalTree<'_, K2, V2, S2>, TypedTransactionalTree<'_, K3, V3, S3>, TypedTransactionalTree<'_, K4, V4, S4>, TypedTransactionalTree<'_, K5, V5, S5>, TypedTransactionalTree<'_, K6, V6, S6>, TypedTransactionalTree<'_, K7, V7, S7>, TypedTransactionalTree<'_, K8, V8, S8>, TypedTransactionalTree<'_, K9, V9, S9>, TypedTransactionalTree<'_, K10, V10, S10>)) -> Result<A, Interrupt<E>>,

    requires
        forall|views: (TypedTransactionalTree<'_, K1, V1, S1>, TypedTransactionalTree<'_, K2, V2, S2>, TypedTransactionalTree<'_, K3, V3, S3>, TypedTransactionalTree<'_, K4, V4, S4>, TypedTransactionalTree<'_, K5, V5, S5>, TypedTransactionalTree<'_, K6, V6, S6>, TypedTransactionalTree<'_, K7, V7, S7>, TypedTransactionalTree<'_, K8, V8, S8>, TypedTransactionalTree<'_, K9, V9, S9>, TypedTransactionalTree<'_, K10, V10, S10>)| f.requires((views,)),
    ensures
        transaction_outcome(
            f,
            |views: (TypedTransactionalTree<'_, K1, V1, S1>, TypedTransactionalTree<'_, K2, V2, S2>, TypedTransactionalTree<'_, K3, V3, S3>, TypedTransactionalTree<'_, K4, V4, S4>, TypedTransactionalTree<'_, K5, V5, S5>, TypedTransactionalTree<'_, K6, V6, S6>, TypedTransactionalTree<'_, K7, V7, S7>, TypedTransactionalTree<'_, K8, V8, S8>, TypedTransactionalTree<'_, K9, V9, S9>, TypedTransactionalTree<'_, K10, V10, S10>)|
                views.0.name() == trees.0.name()
                    && views.1.name() == trees.1.name()
                    && views.2.name() == trees.2.name()
                    && views.3.name() == trees.3.name()
                    && views.4.name() == trees.4.name()
                    && views.5.name() == trees.5.name()
                    && views.6.name() == trees.6.name()
                    && views.7.name() == trees.7.name()
                    && views.8.name() == trees.8.name()
                    && views.9.name() == trees.9.name(),
            out,
        ),
{
    let mut raw: Vec<&sled::Tree> = Vec::new();
    raw.push(trees.0.as_sled());
    raw.push(trees.1.as_sled());
    raw.push(trees.2.as_sled());
    raw.push(trees.3.as_sled());
    raw.push(trees.4.as_sled());
    raw.push(trees.5.as_sled());
    raw.push(trees.6.as_sled());
    raw.push(trees.7.as_sled());
    raw.push(trees.8.as_sled());
    raw.push(trees.9.as_sled());
    let body = &f;
    let attempt = |views: &Vec<sled::transaction::TransactionalTree>| -> (res: Result<
        A,
        Interrupt<E>,
    >)
        requires
            views.len() == 10,
        ensures
            exists|typed: (TypedTransactionalTree<'_, K1, V1, S1>, TypedTransactionalTree<'_, K2, V2, S2>, TypedTransactionalTree<'_, K3, V3, S3>, TypedTransactionalTree<'_, K4, V4, S4>, TypedTransactionalTree<'_, K5, V5, S5>, TypedTransactionalTree<'_, K6, V6, S6>, TypedTransactionalTree<'_, K7, V7, S7>, TypedTransactionalTree<'_, K8, V8, S8>, TypedTransactionalTree<'_, K9, V9, S9>, TypedTransactionalTree<'_, K10, V10, S10>)|
                {
                &&& typed.0.name() == engine::view_name(views@[0])
                &&& typed.1.name() == engine::view_name(views@[1])
                &&& typed.2.name() == engine::view_name(views@[2])
                &&& typed.3.name() == engine::view_name(views@[3])
                &&& typed.4.name() == engine::view_name(views@[4])
                &&& typed.5.name() == engine::view_name(views@[5])
                &&& typed.6.name() == engine::view_name(views@[6])
                &&& typed.7.name() == engine::view_name(views@[7])
                &&& typed.8.name() == engine::view_name(views@[8])
                &&& typed.9.name() == engine::view_name(views@[9])
                &&& #[trigger] body.ensures((typed,), res)
                },
        {
            body((
                TypedTransactionalTree::new(&views[0]),
                TypedTransactionalTree::new(&views[1]),
                TypedTransactionalTree::new(&views[2]),
                TypedTransactionalTree::new(&views[3]),
                TypedTransactionalTree::new(&views[4]),
                TypedTransactionalTree::new(&views[5]),
                TypedTransactionalTree::new(&views[6]),
                TypedTransactionalTree::new(&views[7]),
                TypedTransactionalTree::new(&views[8]),
                TypedTransactionalTree::new(&views[9]),
            ))
        };
    engine::transact(raw, attempt)
}

/// Collections that a transaction can run on together: a tuple of up to ten
/// collections, each with its own key type, value type and strategy.
pub trait Transactional<A, E, F> {
    /// Whether `f` can be run on the views of these collections.
    spec fn accepts(&self, f: F) -> bool;

    /// Whether a transaction of `f` that ended with `out` ended as `f` did
    /// on views of these collections, each a view of the collection at its
    /// place.
    spec fn outcome(&self, f: F, out: Result<A, TransactionFailure<E>>) -> bool;

    /// Runs `f` as one transaction on these collections. The views are
    /// handed to `f` in the order of the collections.
    ///
    /// The engine holds its write lock while `f` runs: an `f` that reads or
    /// writes the store other than through its views, or starts a transaction
    /// of its own, does not return.
    fn transaction(&self, f: F) -> (out: Result<A, TransactionFailure<E>>)
        requires
            self.accepts(f),
        ensures
            self.outcome(f, out),
    ;
}

impl<'t, K1, V1, S1, A, E, F> Transactional<A, E, F> for (&'t TypedTree<K1, V1, S1>,) where
    S1: SerDe<K1, V1>,
    F: Fn((TypedTransactionalTree<'_, K1, V1, S1>,)) -> Result<A, Interrupt<E>>,
 {
    open spec fn accepts(&self, f: F) -> bool {
        forall|views: (TypedTransactionalTree<'_, K1, V1, S1>,)| f.requires((views,))
    }

    open spec fn outcome(&self, f: F, out: Result<A, TransactionFailure<E>>) -> bool {
        transaction_outcome(
            f,
            |views: (TypedTransactionalTree<'_, K1, V1, S1>,)|
                views.0.name() == self.0.name(),
            out,
        )
    }

    fn transaction(&self, f: F) -> (out: Result<A, TransactionFailure<E>>) {
        let body = &f;
        let one = |view: TypedTransactionalTree<'_, K1, V1, S1>| -> (res: Result<A, Interrupt<E>>)
            ensures
                body.ensures(((view,),), res),
            { body((view,)) };
        self.0.transaction(one)
    }
}

impl<'t, K1, V1, S1, K2, V2, S2, A, E, F> Transactional<A, E, F> for (&'t TypedTree<K1, V1, S1>, &'t TypedTree<K2, V2, S2>) where
    S1: SerDe<K1, V1>,
    S2: SerDe<K2, V2>,
    F: Fn((TypedTransactionalTree<'_, K1, V1, S1>, TypedTransactionalTree<'_, K2, V2, S2>)) -> Result<A, Interrupt<E>>,
 {
    open spec fn accepts(&self, f: F) -> bool {
        forall|views: (TypedTransactionalTree<'_, K1, V1, S1>, TypedTransactionalTree<'_, K2, V2, S2>)| f.requires((views,))
    }

    open spec fn outcome(&self, f: F, out: Result<A, TransactionFailure<E>>) -> bool {
        transaction_outcome(
            f,
            |views: (TypedTransactionalTree<'_, K1, V1, S1>, TypedTransactionalTree<'_, K2, V2, S2>)|
                views.0.name() == self.0.name()
                    && views.1.name() == self.1.name(),
            out,
        )
    }

    fn transaction(&self, f: F) -> (out: Result<A, TransactionFailure<E>>) {
        transaction2((self.0, self.1), f)
    }
}

impl<'t, K1, V1, S1, K2, V2, S2, K3, V3, S3, A, E, F> Transactional<A, E, F> for (&'t TypedTree<K1, V1, S1>, &'t TypedTree<K2, V2, S2>, &'t TypedTree<K3, V3, S3>) where
    S1: SerDe<K1, V1>,
    S2: SerDe<K2, V2>,
    S3: SerDe<K3, V3>,
    F: Fn((TypedTransactionalTree<'_, K1, V1, S1>, TypedTransactionalTree<'_, K2, V2, S2>, TypedTransactionalTree<'_, K3, V3, S3>)) -> Result<A, Interrupt<E>>,
 {
    open spec fn accepts(&self, f: F) -> bool {
        forall|views: (TypedTransactionalTree<'_, K1, V1, S1>, TypedTransactionalTree<'_, K2, V2, S2>, TypedTransactionalTree<'_, K3, V3, S3>)| f.requires((views,))
    }

    open spec fn outcome(&self, f: F, out: Result<A, TransactionFailure<E>>) -> bool {
        transaction_outcome(
            f,
            |views: (TypedTransactionalTree<'_, K1, V1, S1>, TypedTransactionalTree<'_, K2, V2, S2>, TypedTransactionalTree<'_, K3, V3, S3>)|
                views.0.name() == self.0.name()
                    && views.1.name() == self.1.name()
                    && views.2.name() == self.2.name(),
            out,
        )
    }

    fn transaction(&self, f: F) -> (out: Result<A, TransactionFailure<E>>) {
        transaction3((self.0, self.1, self.2), f)
    }
}

impl<'t, K1, V1, S1, K2, V2, S2, K3, V3, S3, K4, V4, S4, A, E, F> Transactional<A, E, F> for (&'t TypedTree<K1, V1, S1>, &'t TypedTree<K2, V2, S2>, &'t TypedTree<K3, V3, S3>, &'t TypedTree<K4, V4, S4>) where
    S1: SerDe<K1, V1>,
    S2: SerDe<K2, V2>,
    S3: SerDe<K3, V3>,
    S4: SerDe<K4, V4>,
    F: Fn((TypedTransactionalTree<'_, K1, V1, S1>, TypedTransactionalTree<'_, K2, V2, S2>, TypedTransactionalTree<'_, K3, V3, S3>, TypedTransactionalTree<'_, K4, V4, S4>)) -> Result<A, Interrupt<E>>,
 {
    open spec fn accepts(&self, f: F) -> bool {
        forall|views: (TypedTransactionalTree<'_, K1, V1, S1>, TypedTransactionalTree<'_, K2, V2, S2>, TypedTransactionalTree<'_, K3, V3, S3>, TypedTransactionalTree<'_, K4, V4, S4>)| f.requires((views,))
    }

    open spec fn outcome(&self, f: F, out: Result<A, TransactionFailure<E>>) -> bool {
        transaction_outcome(
            f,
            |views: (TypedTransactionalTree<'_, K1, V1, S1>, TypedTransactionalTree<'_, K2, V2, S2>, TypedTransactionalTree<'_, K3, V3, S3>, TypedTransactionalTree<'_, K4, V4, S4>)|
                views.0.name() == self.0.name()
                    && views.1.name() == self.1.name()
                    && views.2.name() == self.2.name()
                    && views.3.name() == self.3.name(),
            out,
        )
    }

    fn transaction(&self, f: F) -> (out: Result<A, TransactionFailure<E>>) {
        transaction4((self.0, self.1, self.2, self.3), f)
    }
}

impl<'t, K1, V1, S1, K2, V2, S2, K3, V3, S3, K4, V4, S4, K5, V5, S5, A, E, F> Transactional<A, E, F> for (&'t TypedTree<K1, V1, S1>, &'t TypedTree<K2, V2, S2>, &'t TypedTree<K3, V3, S3>, &'t TypedTree<K4, V4, S4>, &'t TypedTree<K5, V5, S5>) where
    S1: SerDe<K1, V1>,
    S2: SerDe<K2, V2>,
    S3: SerDe<K3, V3>,
    S4: SerDe<K4, V4>,
    S5: SerDe<K5, V5>,
    F: Fn((TypedTransactionalTree<'_, K1, V1, S1>, TypedTransactionalTree<'_, K2, V2, S2>, TypedTransactionalTree<'_, K3, V3, S3>, TypedTransactionalTree<'_, K4, V4, S4>, TypedTransactionalTree<'_, K5, V5, S5>)) -> Result<A, Interrupt<E>>,
 {
    open spec fn accepts(&self, f: F) -> bool {
        forall|views: (TypedTransactionalTree<'_, K1, V1, S1>, TypedTransactionalTree<'_, K2, V2, S2>, TypedTransactionalTree<'_, K3, V3, S3>, TypedTransactionalTree<'_, K4, V4, S4>, TypedTransactionalTree<'_, K5, V5, S5>)| f.requires((views,))
    }

    open spec fn outcome(&self, f: F, out: Result<A, TransactionFailure<E>>) -> bool {
        transaction_outcome(
            f,
            |views: (TypedTransactionalTree<'_, K1, V1, S1>, TypedTransactionalTree<'_, K2, V2, S2>, TypedTransactionalTree<'_, K3, V3, S3>, TypedTransactionalTree<'_, K4, V4, S4>, TypedTransactionalTree<'_, K5, V5, S5>)|
                views.0.name() == self.0.name()
                    && views.1.name() == self.1.name()
                    && views.2.name() == self.2.name()
                    && views.3.name() == self.3.name()
                    && views.4.name() == self.4.name(),
            out,
        )
    }

    fn transaction(&self, f: F) -> (out: Result<A, TransactionFailure<E>>) {
        transaction5((self.0, self.1, self.2, self.3, self.4), f)
    }
}

impl<'t, K1, V1, S1, K2, V2, S2, K3, V3, S3, K4, V4, S4, K5, V5, S5, K6, V6, S6, A, E, F> Transactional<A, E, F> for (&'t TypedTree<K1, V1, S1>, &'t TypedTree<K2, V2, S2>, &'t TypedTree<K3, V3, S3>, &'t TypedTree<K4, V4, S4>, &'t TypedTree<K5, V5, S5>, &'t TypedTree<K6, V6, S6>) where
    S1: SerDe<K1, V1>,
    S2: SerDe<K2, V2>,
    S3: SerDe<K3, V3>,
    S4: SerDe<K4, V4>,
    S5: SerDe<K5, V5>,
    S6: SerDe<K6, V6>,
    F: Fn((TypedTransactionalTree<'_, K1, V1, S1>, TypedTransactionalTree<'_, K2, V2, S2>, TypedTransactionalTree<'_, K3, V3, S3>, TypedTransactionalTree<'_, K4, V4, S4>, TypedTransactionalTree<'_, K5, V5, S5>, TypedTransactionalTree<'_, K6, V6, S6>)) -> Result<A, Interrupt<E>>,
 {
    open spec fn accepts(&self, f: F) -> bool {
        forall|views: (TypedTransactionalTree<'_, K1, V1, S1>, TypedTransactionalTree<'_, K2, V2, S2>, TypedTransactionalTree<'_, K3, V3, S3>, TypedTransactionalTree<'_, K4, V4, S4>, TypedTransactionalTree<'_, K5, V5, S5>, TypedTransactionalTree<'_, K6, V6, S6>)| f.requires((views,))
    }

    open spec fn outcome(&self, f: F, out: Result<A, TransactionFailure<E>>) -> bool {
        transaction_outcome(
            f,
            |views: (TypedTransactionalTree<'_, K1, V1, S1>, TypedTransactionalTree<'_, K2, V2, S2>, TypedTransactionalTree<'_, K3, V3, S3>, TypedTransactionalTree<'_, K4, V4, S4>, TypedTransactionalTree<'_, K5, V5, S5>, TypedTransactionalTree<'_, K6, V6, S6>)|
                views.0.name() == self.0.name()
                    && views.1.name() == self.1.name()
                    && views.2.name() == self.2.name()
                    && views.3.name() == self.3.name()
                    && views.4.name() == self.4.name()
                    && views.5.name() == self.5.name(),
            out,
        )
    }

    fn transaction(&self, f: F) -> (out: Result<A, TransactionFailure<E>>) {
        transaction6((self.0, self.1, self.2, self.3, self.4, self.5), f)
    }
}

impl<'t, K1, V1, S1, K2, V2, S2, K3, V3, S3, K4, V4, S4, K5, V5, S5, K6, V6, S6, K7, V7, S7, A, E, F> Transactional<A, E, F> for (&'t TypedTree<K1, V1, S1>, &'t TypedTree<K2, V2, S2>, &'t TypedTree<K3, V3, S3>, &'t TypedTree<K4, V4, S4>, &'t TypedTree<K5, V5, S5>, &'t TypedTree<K6, V6, S6>, &'t TypedTree<K7, V7, S7>) where
    S1: SerDe<K1, V1>,
    S2: SerDe<K2, V2>,
    S3: SerDe<K3, V3>,
    S4: SerDe<K4, V4>,
    S5: SerDe<K5, V5>,
    S6: SerDe<K6, V6>,
    S7: SerDe<K7, V7>,
    F: Fn((TypedTransactionalTree<'_, K1, V1, S1>, TypedTransactionalTree<'_, K2, V2, S2>, TypedTransactionalTree<'_, K3, V3, S3>, TypedTransactionalTree<'_, K4, V4, S4>, TypedTransactionalTree<'_, K5, V5, S5>, TypedTransactionalTree<'_, K6, V6, S6>, TypedTransactionalTree<'_, K7, V7, S7>)) -> Result<A, Interrupt<E>>,
 {
    open spec fn accepts(&self, f: F) -> bool {
        forall|views: (TypedTransactionalTree<'_, K1, V1, S1>, TypedTransactionalTree<'_, K2, V2, S2>, TypedTransactionalTree<'_, K3, V3, S3>, TypedTransactionalTree<'_, K4, V4, S4>, TypedTransactionalTree<'_, K5, V5, S5>, TypedTransactionalTree<'_, K6, V6, S6>, TypedTransactionalTree<'_, K7, V7, S7>)| f.requires((views,))
    }

    open spec fn outcome(&self, f: F, out: Result<A, TransactionFailure<E>>) -> bool {
        transaction_outcome(
            f,
            |views: (TypedTransactionalTree<'_, K1, V1, S1>, TypedTransactionalTree<'_, K2, V2, S2>, TypedTransactionalTree<'_, K3, V3, S3>, TypedTransactionalTree<'_, K4, V4, S4>, TypedTransactionalTree<'_, K5, V5, S5>, TypedTransactionalTree<'_, K6, V6, S6>, TypedTransactionalTree<'_, K7, V7, S7>)|
                views.0.name() == self.0.name()
                    && views.1.name() == self.1.name()
                    && views.2.name() == self.2.name()
                    && views.3.name() == self.3.name()
                    && views.4.name() == self.4.name()
                    && views.5.name() == self.5.name()
                    && views.6.name() == self.6.name(),
            out,
        )
    }

    fn transaction(&self, f: F) -> (out: Result<A, TransactionFailure<E>>) {
        transaction7((self.0, self.1, self.2, self.3, self.4, self.5, self.6), f)
    }
}

impl<'t, K1, V1, S1, K2, V2, S2, K3, V3, S3, K4, V4, S4, K5, V5, S5, K6, V6, S6, K7, V7, S7, K8, V8, S8, A, E, F> Transactional<A, E, F> for (&'t TypedTree<K1, V1, S1>, &'t TypedTree<K2, V2, S2>, &'t TypedTree<K3, V3, S3>, &'t TypedTree<K4, V4, S4>, &'t TypedTree<K5, V5, S5>, &'t TypedTree<K6, V6, S6>, &'t TypedTree<K7, V7, S7>, &'t TypedTree<K8, V8, S8>) where
    S1: SerDe<K1, V1>,
    S2: SerDe<K2, V2>,
    S3: SerDe<K3, V3>,
    S4: SerDe<K4, V4>,
    S5: SerDe<K5, V5>,
    S6: SerDe<K6, V6>,
    S7: SerDe<K7, V7>,
    S8: SerDe<K8, V8>,
    F: Fn((TypedTransactionalTree<'_, K1, V1, S1>, TypedTransactionalTree<'_, K2, V2, S2>, TypedTransactionalTree<'_, K3, V3, S3>, TypedTransactionalTree<'_, K4, V4, S4>, TypedTransactionalTree<'_, K5, V5, S5>, TypedTransactionalTree<'_, K6, V6, S6>, TypedTransactionalTree<'_, K7, V7, S7>, TypedTransactionalTree<'_, K8, V8, S8>)) -> Result<A, Interrupt<E>>,
 {
    open spec fn accepts(&self, f: F) -> bool {
        forall|views: (TypedTransactionalTree<'_, K1, V1, S1>, TypedTransactionalTree<'_, K2, V2, S2>, TypedTransactionalTree<'_, K3, V3, S3>, TypedTransactionalTree<'_, K4, V4, S4>, TypedTransactionalTree<'_, K5, V5, S5>, TypedTransactionalTree<'_, K6, V6, S6>, TypedTransactionalTree<'_, K7, V7, S7>, TypedTransactionalTree<'_, K8, V8, S8>)| f.requires((views,))
    }

    open spec fn outcome(&self, f: F, out: Result<A, TransactionFailure<E>>) -> bool {
        transaction_outcome(
            f,
            |views: (TypedTransactionalTree<'_, K1, V1, S1>, TypedTransactionalTree<'_, K2, V2, S2>, TypedTransactionalTree<'_, K3, V3, S3>, TypedTransactionalTree<'_, K4, V4, S4>, TypedTransactionalTree<'_, K5, V5, S5>, TypedTransactionalTree<'_, K6, V6, S6>, TypedTransactionalTree<'_, K7, V7, S7>, TypedTransactionalTree<'_, K8, V8, S8>)|
                views.0.name() == self.0.name()
                    && views.1.name() == self.1.name()
                    && views.2.name() == self.2.name()
                    && views.3.name() == self.3.name()
                    && views.4.name() == self.4.name()
                    && views.5.name() == self.5.name()
                    && views.6.name() == self.6.name()
                    && views.7.name() == self.7.name(),
            out,
        )
    }

    fn transaction(&self, f: F) -> (out: Result<A, TransactionFailure<E>>) {
        transaction8((self.0, self.1, self.2, self.3, self.4, self.5, self.6, self.7), f)
    }
}

impl<'t, K1, V1, S1, K2, V2, S2, K3, V3, S3, K4, V4, S4, K5, V5, S5, K6, V6, S6, K7, V7, S7, K8, V8, S8, K9, V9, S9, A, E, F> Transactional<A, E, F> for (&'t TypedTree<K1, V1, S1>, &'t TypedTree<K2, V2, S2>, &'t TypedTree<K3, V3, S3>, &'t TypedTree<K4, V4, S4>, &'t TypedTree<K5, V5, S5>, &'t TypedTree<K6, V6, S6>, &'t TypedTree<K7, V7, S7>, &'t TypedTree<K8, V8, S8>, &'t TypedTree<K9, V9, S9>) where
    S1: SerDe<K1, V1>,
    S2: SerDe<K2, V2>,
    S3: SerDe<K3, V3>,
    S4: SerDe<K4, V4>,
    S5: SerDe<K5, V5>,
    S6: SerDe<K6, V6>,
    S7: SerDe<K7, V7>,
    S8: SerDe<K8, V8>,
    S9: SerDe<K9, V9>,
    F: Fn((TypedTransactionalTree<'_, K1, V1, S1>, TypedTransactionalTree<'_, K2, V2, S2>, TypedTransactionalTree<'_, K3, V3, S3>, TypedTransactionalTree<'_, K4, V4, S4>, TypedTransactionalTree<'_, K5, V5, S5>, TypedTransactionalTree<'_, K6, V6, S6>, TypedTransactionalTree<'_, K7, V7, S7>, TypedTransactionalTree<'_, K8, V8, S8>, TypedTransactionalTree<'_, K9, V9, S9>)) -> Result<A, Interrupt<E>>,
 {
    open spec fn accepts(&self, f: F) -> bool {
        forall|views: (TypedTransactionalTree<'_, K1, V1, S1>, TypedTransactionalTree<'_, K2, V2, S2>, TypedTransactionalTree<'_, K3, V3, S3>, TypedTransactionalTree<'_, K4, V4, S4>, TypedTransactionalTree<'_, K5, V5, S5>, TypedTransactionalTree<'_, K6, V6, S6>, TypedTransactionalTree<'_, K7, V7, S7>, TypedTransactionalTree<'_, K8, V8, S8>, TypedTransactionalTree<'_, K9, V9, S9>)| f.requires((views,))
    }

    open spec fn outcome(&self, f: F, out: Result<A, TransactionFailure<E>>) -> bool {
        transaction_outcome(
            f,
            |views: (TypedTransactionalTree<'_, K1, V1, S1>, TypedTransactionalTree<'_, K2, V2, S2>, TypedTransactionalTree<'_, K3, V3, S3>, TypedTransactionalTree<'_, K4, V4, S4>, TypedTransactionalTree<'_, K5, V5, S5>, TypedTransactionalTree<'_, K6, V6, S6>, TypedTransactionalTree<'_, K7, V7, S7>, TypedTransactionalTree<'_, K8, V8, S8>, TypedTransactionalTree<'_, K9, V9, S9>)|
                views.0.name() == self.0.name()
                    && views.1.name() == self.1.name()
                    && views.2.name() == self.2.name()
                    && views.3.name() == self.3.name()
                    && views.4.name() == self.4.name()
                    && views.5.name() == self.5.name()
                    && views.6.name() == self.6.name()
                    && views.7.name() == self.7.name()
                    && views.8.name() == self.8.name(),
            out,
        )
    }

    fn transaction(&self, f: F) -> (out: Result<A, TransactionFailure<E>>) {
        transaction9((self.0, self.1, self.2, self.3, self.4, self.5, self.6, self.7, self.8), f)
    }
}

impl<'t, K1, V1, S1, K2, V2, S2, K3, V3, S3, K4, V4, S4, K5, V5, S5, K6, V6, S6, K7, V7, S7, K8, V8, S8, K9, V9, S9, K10, V10, S10, A, E, F> Transactional<A, E, F> for (&'t TypedTree<K1, V1, S1>, &'t TypedTree<K2, V2, S2>, &'t TypedTree<K3, V3, S3>, &'t TypedTree<K4, V4, S4>, &'t TypedTree<K5, V5, S5>, &'t TypedTree<K6, V6, S6>, &'t TypedTree<K7, V7, S7>, &'t TypedTree<K8, V8, S8>, &'t TypedTree<K9, V9, S9>, &'t TypedTree<K10, V10, S10>) where
    S1: SerDe<K1, V1>,
    S2: SerDe<K2, V2>,
    S3: SerDe<K3, V3>,
    S4: SerDe<K4, V4>,
    S5: SerDe<K5, V5>,
    S6: SerDe<K6, V6>,
    S7: SerDe<K7, V7>,
    S8: SerDe<K8, V8>,
    S9: SerDe<K9, V9>,
    S10: SerDe<K10, V10>,
    F: Fn((TypedTransactionalTree<'_, K1, V1, S1>, TypedTransactionalTree<'_, K2, V2, S2>, TypedTransactionalTree<'_, K3, V3, S3>, TypedTransactionalTree<'_, K4, V4, S4>, TypedTransactionalTree<'_, K5, V5, S5>, TypedTransactionalTree<'_, K6, V6, S6>, TypedTransactionalTree<'_, K7, V7, S7>, TypedTransactionalTree<'_, K8, V8, S8>, TypedTransactionalTree<'_, K9, V9, S9>, TypedTransactionalTree<'_, K10, V10, S10>)) -> Result<A, Interrupt<E>>,
 {
    open spec fn accepts(&self, f: F) -> bool {
        forall|views: (TypedTransactionalTree<'_, K1, V1, S1>, TypedTransactionalTree<'_, K2, V2, S2>, TypedTransactionalTree<'_, K3, V3, S3>, TypedTransactionalTree<'_, K4, V4, S4>, TypedTransactionalTree<'_, K5, V5, S5>, TypedTransactionalTree<'_, K6, V6, S6>, TypedTransactionalTree<'_, K7, V7, S7>, TypedTransactionalTree<'_, K8, V8, S8>, TypedTransactionalTree<'_, K9, V9, S9>, TypedTransactionalTree<'_, K10, V10, S10>)| f.requires((views,))
    }

    open spec fn outcome(&self, f: F, out: Result<A, TransactionFailure<E>>) -> bool {
        transaction_outcome(
            f,
            |views: (TypedTransactionalTree<'_, K1, V1, S1>, TypedTransactionalTree<'_, K2, V2, S2>, TypedTransactionalTree<'_, K3, V3, S3>, TypedTransactionalTree<'_, K4, V4, S4>, TypedTransactionalTree<'_, K5, V5, S5>, TypedTransactionalTree<'_, K6, V6, S6>, TypedTransactionalTree<'_, K7, V7, S7>, TypedTransactionalTree<'_, K8, V8, S8>, TypedTransactionalTree<'_, K9, V9, S9>, TypedTransactionalTree<'_, K10, V10, S10>)|
                views.0.name() == self.0.name()
                    && views.1.name() == self.1.name()
                    && views.2.name() == self.2.name()
                    && views.3.name() == self.3.name()
                    && views.4.name() == self.4.name()
                    && views.5.name() == self.5.name()
                    && views.6.name() == self.6.name()
                    && views.7.name() == self.7.name()
                    && views.8.name() == self.8.name()
                    && views.9.name() == self.9.name(),
            out,
        )
    }

    fn transaction(&self, f: F) -> (out: Result<A, TransactionFailure<E>>) {
        transaction10((self.0, self.1, self.2, self.3, self.4, self.5, self.6, self.7, self.8, self.9), f)
    }
}

} // verus!
