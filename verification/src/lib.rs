//! Input-sensing core for a panel button: a leaky-integrator debounce filter
//! and a three-state press/release state machine driven by a wrapping
//! monotonic tick counter.
//!
//! The hardware pin and the timer are consumed as plain values: each poll
//! takes the raw electrical level that was just sampled and the current tick
//! of the free-running counter. An unverified harness owns the actual
//! peripherals and feeds those values in.

pub mod button;
pub mod debouncer;
