//! Verified decision core of a round-based, multi-node simulation harness.
//!
//! The harness spawns a fixed set of nodes, drives them through synchronized
//! rounds (a concurrent tick phase, then a sequential check phase), and stops at
//! the round limit or at the first fatal error. The asynchronous work itself
//! (binding endpoints, running ticks, shutting nodes down) is performed by the
//! caller; this crate decides what happens next and keeps the shared, read-only
//! directory of node addresses and the append-only metrics registry.
pub mod error;
pub mod scheduler;
pub mod directory;
pub mod metrics;
pub mod replay;
pub mod context;
pub mod events;
