//! The boundary to the storage engine: the `sled` types that the library
//! carries, and one trusted function for each engine call it makes.
//!
//! What the engine reads from the store depends on what is stored, and on
//! what other handles and threads do to the store; no contract here says
//! anything of it. The typed layer is verified for every value that can
//! come back. Contracts are stated only of what a call does to a value in
//! hand: the name of a collection that was opened, the bounds of a walk
//! when it is made and after a step, the writes that a batch holds, and
//! the runs of a transaction body.

use vstd::prelude::*;
use crate::error::{Interrupt, TransactionFailure, ViewError};

verus! {

/// A store. Opaque to the verifier.
#[verifier::external_type_specification]
#[verifier::external_body]
pub struct ExDb(sled::Db);

/// One byte collection of a store. Opaque to the verifier.
#[verifier::external_type_specification]
#[verifier::external_body]
pub struct ExTree(sled::Tree);

/// A failure reported by the engine. Opaque to the verifier.
#[verifier::external_type_specification]
#[verifier::external_body]
pub struct ExError(sled::Error);

/// A byte buffer of the engine. Opaque to the verifier.
#[verifier::external_type_specification]
#[verifier::external_body]
pub struct ExIVec(sled::IVec);

/// A walk over a byte collection. Opaque to the verifier.
#[verifier::external_type_specification]
#[verifier::external_body]
pub struct ExIter(sled::Iter);

/// A buffer of writes on bytes. Opaque to the verifier.
#[verifier::external_type_specification]
#[verifier::external_body]
pub struct ExBatch(sled::Batch);

/// A byte collection as seen from inside a transaction. Opaque to the verifier.
#[verifier::external_type_specification]
#[verifier::external_body]
pub struct ExTransactionalTree(sled::transaction::TransactionalTree);

/// A conflict or a storage failure met inside a transaction. Opaque to the verifier.
#[verifier::external_type_specification]
#[verifier::external_body]
pub struct ExUnabortableTransactionError(sled::transaction::UnabortableTransactionError);

/// What ends a run of a transaction body, in the engine's form. Opaque to the verifier.
#[verifier::external_type_specification]
#[verifier::external_body]
#[verifier::reject_recursive_types(T)]
pub struct ExConflictableTransactionError<T>(sled::transaction::ConflictableTransactionError<T>);

/// Why a transaction failed, in the engine's form. Opaque to the verifier.
#[verifier::external_type_specification]
#[verifier::external_body]
#[verifier::reject_recursive_types(T)]
pub struct ExTransactionError<T>(sled::transaction::TransactionError<T>);

/// A stored key with its value, as bytes.
pub type RawEntry = (Vec<u8>, Vec<u8>);

/// What a failed compare-and-swap hands back, as bytes: the value found and
/// the value that was proposed.
pub type RawMismatch = (Option<Vec<u8>>, Option<Vec<u8>>);

/// The writes that a `sled::Batch` holds: for each key written, the value
/// set, or `None` where the key is to be removed.
pub uninterp spec fn batch_writes(batch: sled::Batch) -> Map<Seq<u8>, Option<Seq<u8>>>;

/// The writes of a batch to which nothing was added.
pub open spec fn no_writes() -> Map<Seq<u8>, Option<Seq<u8>>> {
    Map::empty()
}

/// The name of a collection, as `sled::Tree::name` gives it. A collection
/// keeps the name it was opened under.
pub uninterp spec fn tree_name(tree: sled::Tree) -> Seq<u8>;

/// The inclusive lower bound of what a walk has left: `Some(k)` where the
/// walk goes on with the keys at or after `k`, and `None` where its lower
/// bound has another form.
pub uninterp spec fn iter_lower(iter: sled::Iter) -> Option<Seq<u8>>;

/// The exclusive upper bound of what a walk has left: `Some(k)` where the
/// walk ends before `k`, and `None` where its upper bound has another form.
pub uninterp spec fn iter_upper(iter: sled::Iter) -> Option<Seq<u8>>;

/// Whether a walk has no upper bound.
pub uninterp spec fn iter_open_above(iter: sled::Iter) -> bool;

/// Whether `iter` is a walk over the keys at or after `lower` and, where
/// there is an `upper`, before it.
pub open spec fn walk_over(iter: sled::Iter, lower: Seq<u8>, upper: Option<Seq<u8>>) -> bool {
    &&& iter_lower(iter) == Some(lower)
    &&& iter_upper(iter) == upper
    &&& iter_open_above(iter) == (upper is None)
}

/// The lower bound that a walk is made with: the key given, and the empty
/// key, which is the least of all keys, where none is given.
pub open spec fn lower_or_least(from: Option<Seq<u8>>) -> Seq<u8> {
    match from {
        Some(key) => key,
        None => Seq::empty(),
    }
}

/// The bytes of an optional byte buffer.
pub open spec fn bytes_of(raw: Option<Vec<u8>>) -> Option<Seq<u8>> {
    match raw {
        Some(bytes) => Some(bytes@),
        None => None,
    }
}

/// Calls `sled::Db::open_tree`.
///
/// Trusted: a collection that is handed out has the name that was asked
/// for, as bytes. Whether one is handed out is not assumed.
#[verifier::external_body]
pub(crate) fn open_tree(db: &sled::Db, name: &str) -> (out: Result<sled::Tree, sled::Error>)
    ensures
        out matches Ok(tree) ==> tree_name(tree) == vstd::utf8::encode_utf8(name@),
{
    db.open_tree(name)
}

/// Calls `sled::Tree::get`. Nothing is assumed of the result.
#[verifier::external_body]
pub(crate) fn tree_get(tree: &sled::Tree, key: &[u8]) -> Result<Option<Vec<u8>>, sled::Error> {
    tree.get(key).map(|found| found.map(|bytes| bytes.to_vec()))
}

/// Calls `sled::Tree::insert`. Nothing is assumed of the result.
#[verifier::external_body]
pub(crate) fn tree_insert(tree: &sled::Tree, key: Vec<u8>, value: Vec<u8>) -> Result<
    Option<Vec<u8>>,
    sled::Error,
> {
    tree.insert(key, value).map(|found| found.map(|bytes| bytes.to_vec()))
}

/// Calls `sled::Tree::remove`. Nothing is assumed of the result.
#[verifier::external_body]
pub(crate) fn tree_remove(tree: &sled::Tree, key: &[u8]) -> Result<Option<Vec<u8>>, sled::Error> {
    tree.remove(key).map(|found| found.map(|bytes| bytes.to_vec()))
}

/// Calls `sled::Tree::compare_and_swap`. Nothing is assumed of the result.
#[verifier::external_body]
pub(crate) fn tree_compare_and_swap(
    tree: &sled::Tree,
    key: &[u8],
    old: Option<Vec<u8>>,
    new: Option<Vec<u8>>,
) -> Result<Result<(), RawMismatch>, sled::Error> {
    tree.compare_and_swap(key, old, new).map(
        |swapped|
            swapped.map_err(
                |e| (e.current.map(|b| b.to_vec()), e.proposed.map(|b| b.to_vec())),
            ),
    )
}

/// Calls `sled::Tree::first`. Nothing is assumed of the result.
#[verifier::external_body]
pub(crate) fn tree_first(tree: &sled::Tree) -> Result<Option<RawEntry>, sled::Error> {
    tree.first().map(|found| found.map(|(k, v)| (k.to_vec(), v.to_vec())))
}

/// Calls `sled::Tree::last`. Nothing is assumed of the result.
#[verifier::external_body]
pub(crate) fn tree_last(tree: &sled::Tree) -> Result<Option<RawEntry>, sled::Error> {
    tree.last().map(|found| found.map(|(k, v)| (k.to_vec(), v.to_vec())))
}

/// Calls `sled::Tree::flush`. Nothing is assumed of the result.
#[verifier::external_body]
pub(crate) fn tree_flush(tree: &sled::Tree) -> Result<usize, sled::Error> {
    tree.flush()
}

/// Calls `sled::Tree::range` with an inclusive lower and an exclusive upper
/// bound, each of which may be absent.
///
/// Trusted: the walk that is made has the bounds given; the engine puts the
/// empty key, at or after it, in the place of an absent lower bound. Of the
/// entries that the walk hands out nothing is assumed.
#[verifier::external_body]
pub(crate) fn tree_range(tree: &sled::Tree, from: Option<Vec<u8>>, until: Option<Vec<u8>>) -> (iter:
    sled::Iter)
    ensures
        iter_lower(iter) == Some(lower_or_least(bytes_of(from))),
        iter_upper(iter) == bytes_of(until),
        iter_open_above(iter) == (until is None),
{
    let lo = from.map_or(std::ops::Bound::Unbounded, std::ops::Bound::Included);
    let hi = until.map_or(std::ops::Bound::Unbounded, std::ops::Bound::Excluded);
    tree.range::<Vec<u8>, _>((lo, hi))
}

/// Whether the key `a` comes before the key `b` in the order of the
/// engine, which compares keys byte by byte and puts a key before every
/// key that it is a proper beginning of.
pub open spec fn bytes_before(a: Seq<u8>, b: Seq<u8>) -> bool
    decreases a.len(),
{
    if b.len() == 0 {
        false
    } else if a.len() == 0 {
        true
    } else if a[0] != b[0] {
        a[0] < b[0]
    } else {
        bytes_before(a.drop_first(), b.drop_first())
    }
}

/// What a step from the front does to a walk, whatever it hands out: the
/// upper bound stays as it is, and an entry that is handed out has its key
/// before an exclusive upper bound.
pub open spec fn front_step(
    before: sled::Iter,
    step: Option<Result<RawEntry, sled::Error>>,
    after: sled::Iter,
) -> bool {
    &&& iter_upper(after) == iter_upper(before)
    &&& iter_open_above(after) == iter_open_above(before)
    &&& match (step, iter_upper(before)) {
        (Some(Ok(entry)), Some(end)) => bytes_before(entry.0@, end),
        _ => true,
    }
}

/// What a step from the back does to a walk, whatever it hands out: the
/// lower bound stays as it is; an entry that is handed out has its key at
/// or after an inclusive lower bound, and then the walk has that key as its
/// exclusive upper bound.
pub open spec fn back_step(
    before: sled::Iter,
    step: Option<Result<RawEntry, sled::Error>>,
    after: sled::Iter,
) -> bool {
    &&& iter_lower(after) == iter_lower(before)
    &&& match step {
        Some(Ok(entry)) => {
            &&& iter_upper(after) == Some(entry.0@)
            &&& !iter_open_above(after)
            &&& match iter_lower(before) {
                Some(start) => !bytes_before(entry.0@, start),
                None => true,
            }
        },
        _ => true,
    }
}

/// Calls `Iterator::next` on a `sled::Iter`.
///
/// Trusted: the call leaves the upper bound of the walk as it is, and hands
/// out no entry whose key is not before an exclusive upper bound. Which
/// entry comes, and whether one comes, is not assumed.
#[verifier::external_body]
pub(crate) fn iter_next(iter: &mut sled::Iter) -> (step: Option<Result<RawEntry, sled::Error>>)
    ensures
        front_step(*old(iter), step, *final(iter)),
{
    iter.next().map(|step| step.map(|(k, v)| (k.to_vec(), v.to_vec())))
}

/// Calls `DoubleEndedIterator::next_back` on a `sled::Iter`.
///
/// Trusted: the call leaves the lower bound of the walk as it is, hands out
/// no entry whose key is before an inclusive lower bound, and makes the
/// key of an entry that it hands out the exclusive upper bound of the walk.
/// Which entry comes, and whether one comes, is not assumed.
#[verifier::external_body]
pub(crate) fn iter_next_back(iter: &mut sled::Iter) -> (step: Option<
    Result<RawEntry, sled::Error>,
>)
    ensures
        back_step(*old(iter), step, *final(iter)),
{
    iter.next_back().map(|step| step.map(|(k, v)| (k.to_vec(), v.to_vec())))
}

/// Calls `sled::Tree::merge`. Nothing is assumed of the result.
#[verifier::external_body]
pub(crate) fn tree_merge(tree: &sled::Tree, key: &[u8], value: &[u8]) -> Result<
    Option<Vec<u8>>,
    sled::Error,
> {
    tree.merge(key, value).map(|found| found.map(|bytes| bytes.to_vec()))
}

/// Calls `sled::Tree::set_merge_operator`, which keeps `operator` and calls
/// it on every later merge.
#[verifier::external_body]
pub(crate) fn tree_set_merge_operator<F>(tree: &sled::Tree, operator: F) where
    F: Fn(&[u8], Option<&[u8]>, &[u8]) -> Option<Vec<u8>> + 'static,

    requires
        forall|key: &[u8], old: Option<&[u8]>, incoming: &[u8]|
            operator.requires((key, old, incoming)),
{
    tree.set_merge_operator(operator)
}

/// Calls `sled::Batch::default`.
///
/// Trusted: a new batch holds no writes.
#[verifier::external_body]
pub(crate) fn batch_new() -> (batch: sled::Batch)
    ensures
        batch_writes(batch) == no_writes(),
{
    sled::Batch::default()
}

/// Calls `sled::Batch::insert`.
///
/// Trusted: the batch then holds `value` as the write for `key`, in place of
/// any earlier write for that key, and its other writes are as before.
#[verifier::external_body]
pub(crate) fn batch_insert(batch: &mut sled::Batch, key: Vec<u8>, value: Vec<u8>)
    ensures
        batch_writes(*final(batch)) == batch_writes(*old(batch)).insert(key@, Some(value@)),
{
    batch.insert(key, value)
}

/// Calls `sled::Batch::remove`.
///
/// Trusted: the batch then holds a removal as the write for `key`, in place
/// of any earlier write for that key, and its other writes are as before.
#[verifier::external_body]
pub(crate) fn batch_remove(batch: &mut sled::Batch, key: Vec<u8>)
    ensures
        batch_writes(*final(batch)) == batch_writes(*old(batch)).insert(key@, None),
{
    batch.remove(key)
}

/// Calls `sled::Tree::apply_batch`. Nothing is assumed of the result.
#[verifier::external_body]
pub(crate) fn tree_apply_batch(tree: &sled::Tree, batch: sled::Batch) -> Result<(), sled::Error> {
    tree.apply_batch(batch)
}

/// The name of the collection that an engine view is a view of: the name,
/// as `sled::Tree::name` gives it, of the collection that the view holds.
pub uninterp spec fn view_name(view: sled::transaction::TransactionalTree) -> Seq<u8>;

/// Calls `sled::transaction::TransactionalTree::get`. Nothing is assumed of
/// the result.
#[verifier::external_body]
pub(crate) fn view_get(view: &sled::transaction::TransactionalTree, key: &[u8]) -> Result<
    Option<Vec<u8>>,
    sled::transaction::UnabortableTransactionError,
> {
    view.get(key).map(|found| found.map(|bytes| bytes.to_vec()))
}

/// Calls `sled::transaction::TransactionalTree::insert`. Nothing is assumed
/// of the result.
#[verifier::external_body]
pub(crate) fn view_insert(
    view: &sled::transaction::TransactionalTree,
    key: Vec<u8>,
    value: Vec<u8>,
) -> Result<Option<Vec<u8>>, sled::transaction::UnabortableTransactionError> {
    view.insert(key, value).map(|found| found.map(|bytes| bytes.to_vec()))
}

/// Calls `sled::transaction::TransactionalTree::remove`. Nothing is assumed
/// of the result.
#[verifier::external_body]
pub(crate) fn view_remove(view: &sled::transaction::TransactionalTree, key: Vec<u8>) -> Result<
    Option<Vec<u8>>,
    sled::transaction::UnabortableTransactionError,
> {
    view.remove(key).map(|found| found.map(|bytes| bytes.to_vec()))
}

/// Calls `sled::transaction::TransactionalTree::apply_batch`, which makes
/// the writes of the batch on the view one by one and ends with the first
/// that fails.
///
/// Trusted: a batch without writes cannot fail. Of any other batch nothing
/// is assumed.
#[verifier::external_body]
pub(crate) fn view_apply_batch(
    view: &sled::transaction::TransactionalTree,
    batch: &sled::Batch,
) -> (out: Result<(), sled::transaction::UnabortableTransactionError>)
    ensures
        batch_writes(*batch) == no_writes() ==> out is Ok,
{
    view.apply_batch(batch)
}

/// Calls `sled::transaction::TransactionalTree::flush`.
#[verifier::external_body]
pub(crate) fn view_flush(view: &sled::transaction::TransactionalTree) {
    view.flush()
}

/// Calls `sled::transaction::TransactionalTree::generate_id`. Nothing is
/// assumed of the result.
#[verifier::external_body]
pub(crate) fn view_generate_id(view: &sled::transaction::TransactionalTree) -> Result<
    u64,
    sled::Error,
> {
    view.generate_id()
}

/// Turns what ended an attempt into the engine's form of it, through the
/// engine's own `From<UnabortableTransactionError>`: an abort and a decode
/// failure both abort the transaction, and what the engine reported goes
/// back to the engine.
#[verifier::external_body]
pub(crate) fn to_engine<E>(stop: Interrupt<E>) -> sled::transaction::ConflictableTransactionError<
    TransactionFailure<E>,
> {
    match stop {
        Interrupt::Abort(e) => sled::transaction::ConflictableTransactionError::Abort(
            TransactionFailure::Abort(e),
        ),
        Interrupt::View(ViewError::Decode) => sled::transaction::ConflictableTransactionError::Abort(
            TransactionFailure::Decode,
        ),
        Interrupt::View(ViewError::Engine(e)) => e.into(),
    }
}

/// Turns the engine's `TransactionError` into the library's failure.
#[verifier::external_body]
pub(crate) fn from_engine<E>(
    failure: sled::transaction::TransactionError<TransactionFailure<E>>,
) -> TransactionFailure<E> {
    match failure {
        sled::transaction::TransactionError::Abort(stop) => stop,
        sled::transaction::TransactionError::Storage(e) => TransactionFailure::Storage(e),
    }
}

/// Calls `sled::Transactional::transaction` on a slice of collections, which
/// runs `attempt` on one view for each collection, in their order, and runs
/// it again whenever a conflict was found.
///
/// Trusted: every run is given as many views as there are collections,
/// and each view is a view of the collection at its place. A value that the
/// transaction returns was returned by a run; so was the abort value or the
/// decode failure that it fails with. Of a storage failure nothing is
/// assumed. The engine indexes the first collection, so there must be one.
///
/// The engine holds its write lock while `attempt` runs. An `attempt` that
/// reads or writes the store other than through its views, or starts a
/// transaction of its own, waits for that lock and does not return.
#[verifier::external_body]
pub(crate) fn transact<A, E, F>(trees: Vec<&sled::Tree>, attempt: F) -> (out: Result<
    A,
    TransactionFailure<E>,
>) where F: Fn(&Vec<sled::transaction::TransactionalTree>) -> Result<A, Interrupt<E>>
    requires
        trees.len() >= 1,
        forall|views: &Vec<sled::transaction::TransactionalTree>|
            views.len() == trees.len() ==> attempt.requires((views,)),
    ensures
        decided_by_attempt(out) ==> exists|views: &Vec<sled::transaction::TransactionalTree>|
            {
                &&& views.len() == trees.len()
                &&& forall|i: int|
                    0 <= i < views.len() ==> view_name(#[trigger] views@[i]) == tree_name(
                        *trees@[i],
                    )
                &&& #[trigger] attempt.ensures((views,), attempted(out))
            },
{
    sled::Transactional::transaction(&trees[..], |views| attempt(views).map_err(to_engine)).map_err(
        from_engine,
    )
}

/// Whether a transaction ended with what a run of its body returned, and not
/// with a failure of the engine.
pub open spec fn decided_by_attempt<A, E>(out: Result<A, TransactionFailure<E>>) -> bool {
    match out {
        Err(TransactionFailure::Storage(_)) => false,
        _ => true,
    }
}

/// What the run that decided a transaction returned, where the transaction
/// did not fail in the engine.
pub open spec fn attempted<A, E>(out: Result<A, TransactionFailure<E>>) -> Result<A, Interrupt<E>> {
    match out {
        Ok(a) => Ok(a),
        Err(TransactionFailure::Abort(e)) => Err(Interrupt::Abort(e)),
        Err(_) => Err(Interrupt::View(ViewError::Decode)),
    }
}

} // verus!
