//! Mesh layout for two-dimensional charts.
//!
//! A [`MeshStyle`] collects the declarative settings of a chart's coordinate
//! grid (gridlines, axis lines, tick labels and axis descriptions) and renders
//! them onto a [`ChartContext`] in two passes: a dense, unlabelled fine grid
//! first, and the labelled coarse grid with axes and descriptions on top.
//!
//! Every function in this crate is verified with Verus. The contracts are
//! stated over the ghost views [`MeshConfig`], [`MeshPassView`] and
//! [`TextStyleView`], and over the ghost record of passes that a
//! [`ChartContext`] keeps.

pub mod context;
pub mod laws;
pub mod mesh;
pub mod pass;
pub mod style;

pub use context::{ChartContext, DrawError, DrawnPass, MeshBackend};
pub use mesh::{MeshConfig, MeshStyle, ResolvedStyles, ResolvedStylesView};
pub use pass::{MeshLine, MeshPass, MeshPassView};
pub use style::{Color, FontDesc, ShapeStyle, TextStyle, TextStyleView};
