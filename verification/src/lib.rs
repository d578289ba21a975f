//! Lifecycle of a single authenticated session to a chat service, and the
//! bridge that hands its protocol events to a polling consumer.
//!
//! The crate holds the decisions: where a user's state is stored, in which
//! order a session is brought up and how each stage may fail, what the
//! manager's slot holds after each operation, and what a consumer is told
//! about each item that the bridge yields. Network, file system and awaiting
//! are the embedding application's part.

pub mod failure;
pub mod bridge;
pub mod initializer;
pub mod manager;
pub mod session;
pub mod storage;
