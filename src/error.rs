use vstd::prelude::*;

verus! {

/// Every way a storage operation can fail. The `String` payloads carry the
/// backend's own description of the root cause.
#[derive(Debug, PartialEq, Eq)]
pub enum StoreError {
    /// The connection descriptor names no supported engine.
    UnsupportedBackend,
    /// A connection or a pool could not be opened.
    Connection(String),
    /// The schema migrations could not be applied.
    Migration(String),
    /// No row exists for the requested document id.
    NotFound,
    /// An upsert affected this many rows instead of exactly one.
    Integrity(u64),
    /// A query failed, or returned a value that no table can hold.
    Database(String),
}

} // verus!
