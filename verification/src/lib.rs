//! Core of a GPU telemetry dashboard: a sampling pipeline that reads device
//! state through a driver binding, hands samples across a thread boundary
//! through a bounded channel, and maintains a fixed-duration sliding window
//! of history plus a latest-only process table for a renderer to draw.
//!
//! Everything here is verified; the rendering layer and the thread/loop
//! plumbing live outside the library and only call into it.

pub mod channel;
pub mod data;
pub mod history;
pub mod monitor;
pub mod sampler;
