//! Capability negotiation for a graphics-API instance bootstrap.
//!
//! The library decides, from plain values, everything the startup sequence
//! has to decide: which extensions and layers are required, which of them the
//! platform is missing, which error to report, which severity mask to hand to
//! the diagnostics sink, how a diagnostic message is routed to a log level,
//! and in which order a context tears its resources down. The native calls
//! themselves (loading the library, creating the instance, the window) live
//! outside the library and feed it their results as plain values.

pub mod debug_sink;
pub mod negotiation;
pub mod render_context;
pub mod severity;
