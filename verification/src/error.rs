//! The ways an operation on a collection can fail.

use vstd::prelude::*;

verus! {

/// Why an operation on a collection failed.
#[derive(Debug, PartialEq)]
pub enum TreeError {
    /// The storage engine reported a failure.
    Storage(sled::Error),
    /// Stored bytes do not hold a value of the type the collection was opened
    /// with: they were written by an incompatible type.
    Decode,
    /// A key generator has no key left to issue: the greatest key of the
    /// key type is already in the collection.
    KeysExhausted,
}

/// What a compare-and-swap found where the stored value was not the expected
/// one. It is an answer, not a failure: the caller may try again with
/// `current` as the expected value.
#[derive(Debug, PartialEq)]
pub struct CompareAndSwapError<V> {
    /// The value found under the key.
    pub current: Option<V>,
    /// The value that was proposed and not stored.
    pub proposed: Option<V>,
}

/// Why an operation on a transactional view failed.
#[derive(Debug, PartialEq)]
pub enum ViewError {
    /// The engine reported a conflict or a storage failure. Handed back from
    /// the transaction body, it lets the engine run the body again, or end
    /// the transaction with the failure.
    Engine(sled::transaction::UnabortableTransactionError),
    /// Stored bytes do not hold a value of the type the collection was opened
    /// with.
    Decode,
}

/// What ends one attempt of a transaction body without a value.
#[derive(Debug, PartialEq)]
pub enum Interrupt<E> {
    /// The body gives the transaction up, with a value for the caller.
    Abort(E),
    /// An operation on a view failed.
    View(ViewError),
}

/// Why a transaction failed. Nothing that the failed transaction wrote is
/// in the store.
#[derive(Debug, PartialEq)]
pub enum TransactionFailure<E> {
    /// The body gave the transaction up with this value.
    Abort(E),
    /// The storage engine reported a failure other than a conflict.
    Storage(sled::Error),
    /// The body met stored bytes that do not hold a value of the expected
    /// type.
    Decode,
}

impl<E> From<ViewError> for Interrupt<E> {
    fn from(e: ViewError) -> (out: Self) {
        Interrupt::View(e)
    }
}

impl<E> vstd::std_specs::convert::FromSpecImpl<ViewError> for Interrupt<E> {
    open spec fn obeys_from_spec() -> bool {
        true
    }

    open spec fn from_spec(e: ViewError) -> Self {
        Interrupt::View(e)
    }
}

/// Gives the transaction up with `value`.
pub fn abort<A, E>(value: E) -> (out: Result<A, Interrupt<E>>)
    ensures
        out == Err::<A, Interrupt<E>>(Interrupt::Abort(value)),
{
    Err(Interrupt::Abort(value))
}

} // verus!
