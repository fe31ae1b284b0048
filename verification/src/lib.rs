//! A foreign-table protocol adapter: the verified core of a wrapper that lets
//! a plugin expose a custom data source to a relational database engine by
//! implementing a handful of high-level operations (begin a session, produce
//! rows, insert/update/delete a row) instead of the engine's full
//! table-access callback protocol.
//!
//! The host engine's side of the protocol (catalog records, row slots, plan
//! nodes) is modelled here as plain values, so that the adapter's decisions
//! — option-catalog reading, tuple encoding and decoding, per-session scan
//! state, identity-column injection and the callback-table layout — are all
//! stated in contracts and proved.

pub mod adapter;
pub mod capability;
pub mod codec;
pub mod options;
pub mod routine;
pub mod tuples;

pub use adapter::FdwState;
pub use capability::ForeignData;
pub use options::FdwOptions;
pub use tuples::Tuple;

