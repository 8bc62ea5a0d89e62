//! Core logic for a small monochrome status display on a split keyboard:
//! a coordinate-rotation transform for the physically rotated panel, a
//! status-screen state machine with redraw suppression, a log-screen ring
//! buffer of short text lines, and the renderers that decide what to draw
//! and where. Peripheral wiring, the event bus and the bus transfer belong
//! to the host runtime and stay outside this crate.

pub mod draw;
pub mod event;
pub mod logs;
pub mod rotate;
pub mod status;
pub mod text;
