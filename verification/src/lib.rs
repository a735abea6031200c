//! A declarative 2D vector renderer core.
//!
//! Typed geometric primitives (rectangles, lines, ellipses, text, polygons,
//! compound paths) paired with paint styles are translated into the exact
//! ordered sequence of low-level path-construction and paint operations that
//! an abstract drawing surface executes.  The surface records the operations
//! it is handed; a backend (for instance a browser canvas) replays them.

pub mod frame;
pub mod laws;
pub mod painter;
pub mod primitives;
pub mod surface;
