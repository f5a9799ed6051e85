//! Client-side core of a cursor-based sync-pull protocol for a remote
//! append-only event log.
//!
//! The crate is organised in two layers:
//! - [`cursor`] is the leaf codec between 128-bit cursors and their wire
//!   hex form, including the lenient (zero-trimmed) decode.
//! - [`client`] is the pull protocol itself: request framing, HTTP status
//!   classification, the exponential-backoff retry schedule, and resilient
//!   per-entry batch decoding.
//!
//! The crate holds no transport. A driver owns the HTTP connection and the
//! async sleeps, feeds each attempt's outcome into [`client::pull_step`],
//! and performs the action it returns.

pub mod client;
pub mod cursor;
pub mod error;
pub mod types;
