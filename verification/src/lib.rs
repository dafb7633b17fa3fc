//! A single-slot, multi-observer value-broadcast primitive ("watch").
//!
//! One producer publishes a sequence of values; a bounded number of
//! observers each see the *latest* value exactly once per update. The
//! core is an explicit state machine: every operation runs to completion
//! under exclusive access (`&mut`), and a pending `wait` registers a wake
//! handle that a later `send` hands back to the scheduler for waking.

pub mod laws;
pub mod model;
pub mod version;
pub mod watch;
