//! Verified core of a keyboard status display: a snapshot of what must be
//! shown (active layer, held modifiers, battery level), a layout cache of
//! drawing parameters, a frame renderer that turns layout and snapshot into
//! an exact sequence of draw primitives, a lifecycle manager for the
//! optional display handle, and the polling controller's event-draining and
//! backpressure decisions. Hardware transport, timeouts and scheduling live
//! outside this crate; they hand in plain events and outcomes and carry out
//! the draw commands and lifecycle actions decided here.

pub mod controller;
pub mod laws;
pub mod layout;
pub mod lifecycle;
pub mod render;
pub mod state;
