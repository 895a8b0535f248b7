//! A minimal real-time rendering shell, modelled as a verified state machine.
//!
//! The library keeps a window's presentation chain valid across resizes,
//! accumulates platform input for an immediate-mode UI layer, composes one
//! UI frame per redraw, and records one submitted command buffer per frame
//! that clears the target to a fixed background color and draws the frame's
//! paint jobs on top, in order.
//!
//! Everything here is plain data and decisions; the platform event loop, the
//! GPU device and the UI toolkit live outside the library and drive it.

pub mod geometry;
pub mod input;
pub mod error;
pub mod presentation;
pub mod compose;
pub mod render;
pub mod engine;
