//! Frame-loop and resource-registration logic for a small windowed renderer
//! that draws rectangular widgets.
//!
//! Everything here works on plain values. Coordinates and colours are exact
//! fixed-point numbers; the caller turns them into the floating-point form
//! that a graphics device consumes at the moment of upload.

pub mod app;
pub mod buffer;
pub mod event_loop;
pub mod pipeline;
pub mod surface;
pub mod vertex;
pub mod widgets;
