//! Requests, console dialogue and result rendering for a small product
//! catalogue kept in a key-value table of a managed cloud database.
//!
//! The crate holds no client and performs no I/O: every function maps plain
//! values to plain values, and each states exactly what it returns.

pub mod console;
pub mod item;
pub mod query;
pub mod report;
pub mod schema;
pub mod write;
pub mod writer;
