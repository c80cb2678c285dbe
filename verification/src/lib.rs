//! Core of a media-upload manager: an upload task state machine, an ordered
//! task store, a worker registry bounded by a live-configurable concurrency
//! gate, a periodic admission scheduler, and a chunk splitter that subdivides
//! outbound byte blocks into bounded slices for progress reporting.
//!
//! The surrounding process (GUI commands, network transfer backend, file
//! system access) drives this library through plain values: it performs the
//! I/O and reports events back, while every decision — which task to admit,
//! how counters move, when a slice is emitted — is made and verified here.

pub mod chunk;
pub mod compat;
pub mod config;
pub mod files;
pub mod form;
pub mod responses;
pub mod registry;
pub mod service;
pub mod store;
pub mod task;
pub mod user;
