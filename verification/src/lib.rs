//! A visit counter built around a cache-aside consistency protocol.
//!
//! The durable store is the single source of truth for the number of
//! recorded visits; the cache is an optional accelerator. Reads populate
//! the cache on a miss, writes invalidate it, and every failure of the
//! cache layer degrades to a miss instead of an error. This crate holds
//! the verified core of that protocol: a model of the two stores, the
//! ledger that drives them, and the decision logic that a server wraps
//! around real network backends.

pub mod cache;
pub mod decimal;
pub mod ledger;
pub mod protocol;
pub mod store;
