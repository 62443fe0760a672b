//! Rectangular screen annotations drawn by press, drag and release.
//!
//! The crate holds the annotation lifecycle: world-space geometry on an
//! integer grid, the store of annotation records, the drag state machine
//! that creates and stretches them, and the per-frame rebuild of the visible
//! rectangles.

pub mod annotation;
pub mod drag;
pub mod frame;
pub mod geometry;
pub mod lifecycle;
pub mod render;
pub mod store;
