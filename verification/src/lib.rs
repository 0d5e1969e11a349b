//! A consumer-side client core for a topic/partition message broker.
//!
//! The crate holds the decisions of a consumer: which request goes to the
//! broker session for each operation, and what each of the session's answers
//! means to the caller. The session itself (network, group membership) lives
//! outside: the embedding program performs each [`consumer::DriverCall`] and
//! hands the answer back as plain values.

pub mod consumer;
pub mod error;
pub mod message;
pub mod topic_partition_list;
