//! Atomic file writes, as a protocol with a proof.
//!
//! A payload is staged in a temporary file beside its destination and then
//! moved into place by one rename, so that the destination holds either what
//! it held before or the whole payload. This crate decides *what* is done and
//! in which order; it touches no file itself. Whoever drives a writer performs
//! each [`writer::Action`] on the file system and reports back with an
//! [`writer::Event`].
//!
//! * [`resolver`] names the directory that hosts the temporary file.
//! * [`writer`] holds the staged writer and its commit protocol.
//! * [`error`] holds the error kinds.
//! * [`disk`] is a model of a file system that performs the actions, and
//!   [`laws`] proves over it what a commit leaves behind.

pub mod error;
pub mod resolver;
pub mod writer;
pub mod disk;
pub mod laws;
