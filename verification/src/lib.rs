//! Session-supervisor core for a resilient chat client.
//!
//! The library holds the verified decision logic of a long-running network
//! client: classifying inbound events, de-duplicating chat lines, counting
//! toward an announcement threshold, detecting a stalled session through a
//! liveness watchdog, and driving the reconnect cycle with a fixed backoff.
//! All I/O (the protocol session, authentication, the fact store, timers)
//! stays outside; callers hand in plain values and perform the actions the
//! library decides on.

pub mod announce;
pub mod classify;
pub mod counter;
pub mod pipeline;
pub mod state;
pub mod supervisor;
pub mod watchdog;
