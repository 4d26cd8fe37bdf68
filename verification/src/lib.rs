//! Core of an interactive ledger manager: the mode/form/popup state machine
//! that governs all user mutation of ledger state, the idempotent monthly
//! materialization of recurring entries, and the aggregation that derives
//! totals and per-tag spending from the ledger snapshot.
//!
//! Persistent storage, terminal rendering and the raw keyboard source are
//! collaborators outside this crate; they exchange plain values with it.

pub mod amount;
pub mod app;
pub mod form;
pub mod handlers;
pub mod models;
pub mod scheduler;
pub mod stats;
pub mod text;
