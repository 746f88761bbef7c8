//! Procedural 3-D scene renderer for a terminal: a decorated tree built as a
//! point cloud, rotated and projected onto a character grid each frame, with a
//! growth animation, a zoom-to-star animation, and a persistent snowfall layer.
//!
//! All geometry and shading is computed in fixed-point milli-units (one unit
//! of model space is 1000), so every formula in the pipeline is exact and
//! verified; the terminal driver around the library deals in the same plain
//! integer values.

pub mod fx;
pub mod rng;
pub mod scene;
pub mod snow;
pub mod project;
pub mod raster;
pub mod state;
pub mod pipeline;
