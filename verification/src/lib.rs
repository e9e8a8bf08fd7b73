//! A typed key-value layer over the byte-oriented `sled` storage engine.
//!
//! Keys and values are native types; a serialization strategy, chosen as a
//! type parameter of each collection, turns them into the bytes the engine
//! stores and back. Everything in this crate is verified with Verus; the
//! calls into `sled` and `bincode` are the only trusted parts, and each one
//! states what is assumed of it.
//!
//! What the engine answers depends on what is stored and on what other
//! handles do to the store, so the contracts of the operations that reach
//! the engine say how an answer of the engine becomes the typed answer, for
//! every answer there can be.

pub mod batch;
pub mod engine;
pub mod error;
pub mod iter;
pub mod join;
pub mod key_generating;
pub mod serialize;
pub mod transaction;
pub mod tree;

pub use crate::batch::TypedBatch;
pub use crate::error::{CompareAndSwapError, TreeError};
pub use crate::iter::TypedIter;
pub use crate::serialize::{deserialize, serialize, KV};
pub use crate::tree::{MergeOperator, TypedTree};
