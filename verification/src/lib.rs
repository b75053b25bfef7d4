//! Lifecycle management for a single backend worker process.
//!
//! The library decides everything about launching and terminating the
//! backend — which command to spawn, how the tracked handle changes, and
//! which kill request to issue — as verified logic over plain values. The
//! surrounding application shell performs the actual OS calls and feeds
//! their outcomes back in.

pub mod lifecycle;
pub mod paths;
