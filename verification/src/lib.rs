//! Message-distribution core of a chat backend.
//!
//! Messages accepted at the edge are published to a broker, consumed again,
//! persisted, and pushed to whichever recipients hold a live connection.
//! This crate holds the decisions of that pipeline: what is asked of storage
//! and when, which recipients a message goes to, when a cached member list
//! may still be used, how backlog is computed, and when the consumer is
//! restarted or stopped. Identities are 128-bit integers, instants are
//! nanoseconds on a monotonic clock.

pub mod cache;
pub mod handler;
pub mod identity;
pub mod lag;
pub mod mailbox;
pub mod pipeline;
pub mod producer;
pub mod registry;
pub mod schema;
pub mod storage;
pub mod supervisor;
pub mod transport;
