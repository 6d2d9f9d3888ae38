//! Storage rules for collaborative document snapshots.
//!
//! A snapshot (text plus an optional language tag) is kept under an external
//! document id, with upsert-overwrite semantics. The relational engines that
//! actually hold the rows are driven by the caller; this crate decides which
//! engine a connection descriptor selects, the order of the setup steps, and
//! how each raw query outcome turns into a result or a typed error. An
//! in-memory table gives the same load/store/count contract as a model, and
//! the laws of that contract are proved over its view.

pub mod document;
pub mod error;
pub mod laws;
pub mod outcome;
pub mod setup;
pub mod table;

pub use document::{DocumentModel, PersistedDocument};
pub use error::StoreError;
pub use outcome::{count_result, load_result, store_result};
pub use setup::{fail_step, select_backend, starts_with, Backend, Setup, SetupAction, SetupStep};
pub use table::DocumentTable;
