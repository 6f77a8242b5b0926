//! Drive a suspendable asynchronous computation to completion from a
//! synchronous call site, without being part of an event loop.
//!
//! A computation is an explicit state machine that, when polled, either
//! completes with its value or reports pending, having signalled a wake
//! handle through which it is told to try again. The driver owns one
//! computation exclusively for the whole call, polls it with a fresh wake
//! handle, and waits between polls through a pluggable suspension policy.
//! Computations that structurally require an externally-owned, already
//! running reactor are routed through the delegation gate instead, which
//! decides between a fresh temporary reactor, an isolated nested one, and
//! refusing loudly where nesting would deadlock.

pub mod computations;
pub mod driver;
pub mod gate;
pub mod poll;
pub mod strategy;
pub mod waitable;
pub mod wake;
