//! A resumable blockchain-event synchronizer core.
//!
//! The library holds the verified logic of a background worker that watches a
//! set of contract addresses for a timed-out event resolution, decodes the
//! event payload, and projects it into a relational store while a persisted
//! block cursor advances monotonically.  All I/O (the RPC endpoint and the
//! store itself) lives outside the library; the functions here decide, decode
//! and plan, and their contracts state exactly what they do.

pub mod address;
pub mod event;
pub mod field;
pub mod projector;
pub mod scanner;
pub mod store;
pub mod sync;
