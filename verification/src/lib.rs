//! A deterministic-capture instrumentation library.
//!
//! The crate models and verifies the engine of an in-process capture shim:
//! a virtual clock that replaces the host's notion of elapsed time while
//! frames are being captured, a function-interception registry with chained
//! handlers, graphics and audio capture state machines that snapshot
//! presented frames and delivered sample buffers, a bounded encode pipeline
//! with buffer recycling, and the process-propagation rules that decide
//! which child processes receive the shim.

pub mod audio;
pub mod capture;
pub mod clock;
pub mod config;
pub mod devices;
pub mod encode;
pub mod hook;
pub mod pacing;
pub mod loading;
pub mod propagate;
pub mod registry;
