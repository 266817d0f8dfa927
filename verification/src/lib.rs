//! Geometry, borders and drawing of the panes of a tiled terminal workspace.

pub mod canvas;
pub mod geometry;
pub mod junction;
pub mod label;
pub mod laws;
pub mod lines;
pub mod model;
pub mod overlay;
pub mod placement;
pub mod render;
pub mod style;
