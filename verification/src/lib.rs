//! Record synchronization engine for a 2048 game: a local, keyed record store,
//! a content hasher over canonical record payloads, per-record-kind
//! reconciliation against a remote personal data repository, and replay of a
//! game's move history into aggregate player statistics.

pub mod auth_stores;
pub mod display;
pub mod hashing;
pub mod laws;
pub mod records;
pub mod replay;
pub mod resolver;
pub mod rules_engine;
pub mod share;
pub mod store;
pub mod sync;
pub mod text;
