//! Coordination core for a live speech-to-text session.
//!
//! Two independently driven native engines — an audio capture engine and an
//! incremental speech recognizer — are coordinated into one session with a
//! consistent, queryable transcript. This crate verifies the session state
//! machine (start/stop with partial-failure rollback), the callback-driven
//! ingestion of transcription and error events, and the reconciliation of
//! provisional ("partial") recognizer output with confirmed ("final") output.
//!
//! The engines themselves are external collaborators reached through the
//! traits in [`engine`]; deterministic in-memory engines for tests live in
//! [`sim`]. File persistence and host-application plumbing are out of scope.

pub mod bridge;
pub mod engine;
pub mod model;
pub mod sim;
pub mod transcript;
