//! A network-triggered process launcher: every inbound connection is wired
//! to the standard streams of a freshly spawned child process through a
//! zero-copy kernel transfer, with an optional idle timeout that tears the
//! session down once both sides have gone quiet.
//!
//! This crate holds the decision logic of that system: the classification of
//! transfer outcomes, the per-bridge lifecycle state machine with its
//! at-most-once Relaying-to-Timing transition, and the pool that tracks the
//! active bridges plus the one pre-spawned spare.  The surrounding process —
//! sockets, child processes, relay threads, the actual `splice` call — lives
//! outside and consults these functions for every decision it takes.

pub mod debuggee;
pub mod pidfile;
