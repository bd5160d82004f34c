//! A callback-driven frame-delivery facade over a blocking capture device.
//!
//! The facade owns a serialized capture device, a last-frame cache and a
//! replaceable frame callback, and exposes the control surface of a threaded
//! camera: property getters and setters, stream control, synchronous polling
//! and a cooperative one-way termination signal.  The background worker is one
//! verified step (`CallbackCamera::worker_iteration`); an embedding runs that
//! step on a thread of its own and provides the mutual exclusion that makes
//! each step atomic.

pub mod controls;
pub mod device;
pub mod error;
pub mod frame;
pub mod laws;
pub mod mock;
pub mod sink;
pub mod threaded;
