//! An interactive infinite drawing canvas: pan over an unbounded plane,
//! freehand curve drawing, erasing, and colour selection.
//!
//! The crate covers the core of such a canvas: the curve data model, the
//! camera transform, the memoized render cache, the tool state machine, and
//! the workspace widget that routes input events.  Coordinates and colours
//! are plain integers; rendering itself (rasterization, windowing) belongs to
//! the host shell around the library.

pub mod backdrop;
pub mod bench;
pub mod curve;
pub mod curve_demo;
pub mod geometry;
pub mod render;
pub mod workspace;
pub mod world;
