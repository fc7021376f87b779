//! A feedback board: a Soroban contract that stores votes on messages by their
//! SHA-256 hash, and the indexing logic that mirrors its events into tables.
pub mod contract;
pub mod encoding;
pub mod error;
pub mod events;
pub mod host;
pub mod indexer;
pub mod laws;
pub mod storage;
