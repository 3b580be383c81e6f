//! Retention enforcement for a time-partitioned database.
//!
//! For each named table the library decides how much history to keep: it
//! validates a retention policy (an amount of partition units), computes the
//! oldest timestamp that must survive, and renders the pruning statement that
//! removes every partition older than that cutoff.  Batch and interactive
//! orchestration are modelled as pure functions over the replies the database
//! gives, so the whole decision pipeline is verified; the thin I/O shell
//! around it merely carries questions and answers to and from the store.

pub mod batch;
pub mod clock;
pub mod errors;
pub mod executor;
pub mod granularity;
pub mod policy;
pub mod session;
pub mod statement;
pub mod store_model;
pub mod text;
pub mod timestamp;
