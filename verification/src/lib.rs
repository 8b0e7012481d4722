//! Client-side synchronization engine for a personal-finance ledger service.
//!
//! The crate models the service's entities as plain data records, maintains a
//! local cache of them with merge-by-key upsert and remove-by-key semantics,
//! routes heterogeneous deletion notices into per-kind batches, and evaluates
//! composable query filters over the cached transactions.

pub mod client;
pub mod error;
pub mod keyed;
pub mod models;
pub mod parse;
pub mod storage;
pub mod sync;
pub mod text;
pub mod zen_money;
