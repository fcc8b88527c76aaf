//! Bridging a callback-and-poll completion primitive of a foreign key-value
//! client into a cooperative future, and the views over the payloads that the
//! primitive produces.
//!
//! The foreign completion resource is an arena: a view owns it, and every row
//! handed out by an iterator is an index into the arena together with a shared
//! strong reference to it. The arena is given up when its last referent goes.

pub mod addresses;
pub mod bridge;
pub mod bytes;
pub mod cursor;
pub mod error;
pub mod handle;
pub mod keys;
pub mod mapped;
pub mod scalar;
mod shared;
pub mod slice;
pub mod values;
pub mod wake;
