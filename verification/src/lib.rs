//! Per-user state store for a chat automation service.
//!
//! The crate keeps one composite record per user (impersonation profiles,
//! scheduled events, a small currency ledger), arbitrates reads and writes
//! against the whole store, decides when a persistence snapshot is taken,
//! and drives a one-shot reminder state machine for scheduled events.

pub mod collab;
pub mod command;
pub mod data;
pub mod mimic;
pub mod persist;
pub mod reminder;
pub mod schedule;
pub mod text;
pub mod user;
pub mod user_db;
pub mod wallet;
