//! A live status-update feed: a bounded, multi-cursor broadcast hub with a
//! per-connection stream adapter, an anti-stall sentinel policy, and a
//! keep-alive emitter.
//!
//! The hub fans published events out to any number of independent read
//! cursors. Publishing never blocks: when the ring buffer is full the oldest
//! entry is evicted, and a cursor that had not yet read it is told exactly
//! how many events it missed.

use vstd::prelude::*;

pub mod adapter;
pub mod hub;
pub mod keepalive;
pub mod sentinel;

verus! {

/// Ring-buffer capacity the server shell gives its hub.
pub const DEFAULT_CAPACITY: usize = 10000;

/// Milliseconds of stream silence after which a heartbeat frame is due.
pub const HEARTBEAT_INTERVAL_MS: u64 = 500;

} // verus!
