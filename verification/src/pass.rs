//! What one rendering pass hands to the drawing boundary.

use crate::style::{ShapeStyle, TextStyle, TextStyleView};
use vstd::prelude::*;

verus! {

/// A gridline, tagged with the axis it belongs to.
///
/// Each variant holds the pixel at which the line crosses its axis, and the
/// domain value it stands for.
#[derive(Debug, PartialEq, Eq)]
pub enum MeshLine<X, Y> {
    XMesh(i32, X),
    YMesh(i32, Y),
}

/// A copy keeps the axis and the pixel, and holds a clone of the value.
impl<X: Clone, Y: Clone> Clone for MeshLine<X, Y> {
    fn clone(&self) -> (copy: Self)
        ensures
            match (*self, copy) {
                (MeshLine::XMesh(pixel, value), MeshLine::XMesh(copy_pixel, copy_value)) => {
                    copy_pixel == pixel && cloned(value, copy_value)
                },
                (MeshLine::YMesh(pixel, value), MeshLine::YMesh(copy_pixel, copy_value)) => {
                    copy_pixel == pixel && cloned(value, copy_value)
                },
                _ => false,
            },
    {
        match self {
            MeshLine::XMesh(pixel, value) => MeshLine::XMesh(*pixel, value.clone()),
            MeshLine::YMesh(pixel, value) => MeshLine::YMesh(*pixel, value.clone()),
        }
    }
}

/// The arguments of one mesh drawing call, apart from the label callback.
#[derive(Debug)]
pub struct MeshPass {
    /// Upper bounds on the number of labelled gridlines, as `(y, x)`.
    pub label_hints: (u128, u128),
    pub grid_style: ShapeStyle,
    pub label_style: TextStyle,
    pub draw_x_mesh: bool,
    pub draw_y_mesh: bool,
    /// Pixel offset applied to the placement of X tick labels.
    pub x_label_offset: i32,
    pub draw_x_axis: bool,
    pub draw_y_axis: bool,
    pub axis_style: ShapeStyle,
    pub axis_desc_style: TextStyle,
    pub x_desc: Option<String>,
    pub y_desc: Option<String>,
}

/// The mathematical value of a [`MeshPass`].
pub struct MeshPassView {
    pub label_hints: (nat, nat),
    pub grid_style: ShapeStyle,
    pub label_style: TextStyleView,
    pub draw_x_mesh: bool,
    pub draw_y_mesh: bool,
    pub x_label_offset: int,
    pub draw_x_axis: bool,
    pub draw_y_axis: bool,
    pub axis_style: ShapeStyle,
    pub axis_desc_style: TextStyleView,
    pub x_desc: Option<Seq<char>>,
    pub y_desc: Option<Seq<char>>,
}

/// The characters of an optional string.
pub open spec fn text_of(s: Option<String>) -> Option<Seq<char>> {
    match s {
        Some(s) => Some(s@),
        None => None,
    }
}

impl View for MeshPass {
    type V = MeshPassView;

    open spec fn view(&self) -> MeshPassView {
        MeshPassView {
            label_hints: (self.label_hints.0 as nat, self.label_hints.1 as nat),
            grid_style: self.grid_style,
            label_style: self.label_style@,
            draw_x_mesh: self.draw_x_mesh,
            draw_y_mesh: self.draw_y_mesh,
            x_label_offset: self.x_label_offset as int,
            draw_x_axis: self.draw_x_axis,
            draw_y_axis: self.draw_y_axis,
            axis_style: self.axis_style,
            axis_desc_style: self.axis_desc_style@,
            x_desc: text_of(self.x_desc),
            y_desc: text_of(self.y_desc),
        }
    }
}

impl MeshPassView {
    /// Whether the pass asks for any gridline at all.
    pub open spec fn draws_gridlines(self) -> bool {
        self.draw_x_mesh || self.draw_y_mesh
    }

    /// Whether the pass asks for any axis line.
    pub open spec fn draws_axes(self) -> bool {
        self.draw_x_axis || self.draw_y_axis
    }
}

impl Clone for MeshPass {
    fn clone(&self) -> (copy: Self)
        ensures
            copy == *self,
    {
        MeshPass {
            label_hints: self.label_hints,
            grid_style: self.grid_style,
            label_style: self.label_style.clone(),
            draw_x_mesh: self.draw_x_mesh,
            draw_y_mesh: self.draw_y_mesh,
            x_label_offset: self.x_label_offset,
            draw_x_axis: self.draw_x_axis,
            draw_y_axis: self.draw_y_axis,
            axis_style: self.axis_style,
            axis_desc_style: self.axis_desc_style.clone(),
            x_desc: self.x_desc.clone(),
            y_desc: self.y_desc.clone(),
        }
    }
}

} // verus!
