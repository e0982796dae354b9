//! Colors, fonts, line styles and text styles, held as plain values.

use vstd::prelude::*;
use vstd::string::StringExecFns;

verus! {

/// A color with an opacity in percent: 0 is invisible, 100 is solid, and a
/// backend treats anything above 100 as solid.
#[derive(Clone, Copy, PartialEq, Eq, Structural, Debug)]
pub struct Color {
    pub red: u8,
    pub green: u8,
    pub blue: u8,
    pub opacity: u8,
}

/// How a line is stroked.
#[derive(Clone, Copy, PartialEq, Eq, Structural, Debug)]
pub struct ShapeStyle {
    pub color: Color,
    /// Width of the stroke in pixels.
    pub stroke_width: u32,
}

/// A font: its family and its size in points.
#[derive(Debug)]
pub struct FontDesc {
    pub family: String,
    pub size: u32,
}

/// How text is set: font family, size in points, and color.
#[derive(Debug)]
pub struct TextStyle {
    pub family: String,
    pub size: u32,
    pub color: Color,
}

/// The mathematical value of a [`TextStyle`].
pub struct TextStyleView {
    pub family: Seq<char>,
    pub size: u32,
    pub color: Color,
}

impl View for TextStyle {
    type V = TextStyleView;

    open spec fn view(&self) -> TextStyleView {
        TextStyleView { family: self.family@, size: self.size, color: self.color }
    }
}

impl Color {
    /// Solid black.
    pub open spec fn black() -> Color {
        Color { red: 0, green: 0, blue: 0, opacity: 100 }
    }

    /// A solid color.
    pub fn rgb(red: u8, green: u8, blue: u8) -> (color: Color)
        ensures
            color == (Color { red, green, blue, opacity: 100 }),
    {
        Color { red, green, blue, opacity: 100 }
    }

    /// This color at another opacity, given in percent.
    pub fn mix(self, opacity: u8) -> (color: Color)
        ensures
            color == (Color { opacity, ..self }),
    {
        Color { red: self.red, green: self.green, blue: self.blue, opacity }
    }
}

/// A color is the style of a line one pixel wide.
impl From<Color> for ShapeStyle {
    fn from(color: Color) -> (style: ShapeStyle) {
        ShapeStyle { color, stroke_width: 1 }
    }
}

impl vstd::std_specs::convert::FromSpecImpl<Color> for ShapeStyle {
    open spec fn obeys_from_spec() -> bool {
        true
    }

    open spec fn from_spec(color: Color) -> ShapeStyle {
        ShapeStyle { color, stroke_width: 1 }
    }
}

/// A font is the style of text set in solid black.
impl From<FontDesc> for TextStyle {
    fn from(font: FontDesc) -> (style: TextStyle) {
        TextStyle { family: font.family, size: font.size, color: Color::rgb(0, 0, 0) }
    }
}

impl vstd::std_specs::convert::FromSpecImpl<FontDesc> for TextStyle {
    open spec fn obeys_from_spec() -> bool {
        true
    }

    open spec fn from_spec(font: FontDesc) -> TextStyle {
        TextStyle { family: font.family, size: font.size, color: Color::black() }
    }
}

impl Clone for TextStyle {
    fn clone(&self) -> (copy: Self)
        ensures
            copy == *self,
    {
        TextStyle { family: self.family.clone(), size: self.size, color: self.color }
    }
}

/// Two text styles are equal when they name the same family, size and color.
impl PartialEq for TextStyle {
    fn eq(&self, other: &Self) -> (equal: bool) {
        self.family == other.family && self.size == other.size && self.color == other.color
    }
}

impl vstd::std_specs::cmp::PartialEqSpecImpl for TextStyle {
    open spec fn obeys_eq_spec() -> bool {
        true
    }

    open spec fn eq_spec(&self, other: &Self) -> bool {
        self@ == other@
    }
}

impl ShapeStyle {
    /// The coarse grid without an override: black at 20% opacity, one pixel
    /// wide, which shows as light gray on a light background.
    pub open spec fn coarse_grid_default() -> ShapeStyle {
        ShapeStyle { color: Color { red: 0, green: 0, blue: 0, opacity: 20 }, stroke_width: 1 }
    }

    /// The fine grid without an override: black at 10% opacity, one pixel
    /// wide.
    pub open spec fn fine_grid_default() -> ShapeStyle {
        ShapeStyle { color: Color { red: 0, green: 0, blue: 0, opacity: 10 }, stroke_width: 1 }
    }

    /// The axis lines without an override: solid black, one pixel wide.
    pub open spec fn axis_default() -> ShapeStyle {
        ShapeStyle { color: Color::black(), stroke_width: 1 }
    }

    /// Builds [`ShapeStyle::coarse_grid_default`].
    pub fn default_coarse_grid() -> (style: ShapeStyle)
        ensures
            style == Self::coarse_grid_default(),
    {
        ShapeStyle::from(Color::rgb(0, 0, 0).mix(20))
    }

    /// Builds [`ShapeStyle::fine_grid_default`].
    pub fn default_fine_grid() -> (style: ShapeStyle)
        ensures
            style == Self::fine_grid_default(),
    {
        ShapeStyle::from(Color::rgb(0, 0, 0).mix(10))
    }

    /// Builds [`ShapeStyle::axis_default`].
    pub fn default_axis() -> (style: ShapeStyle)
        ensures
            style == Self::axis_default(),
    {
        ShapeStyle::from(Color::rgb(0, 0, 0))
    }
}

impl TextStyleView {
    /// The tick labels without an override: Arial, a general-purpose
    /// sans-serif, at 12 points in solid black.
    pub open spec fn label_default() -> TextStyleView {
        TextStyleView { family: "Arial"@, size: 12, color: Color::black() }
    }
}

impl TextStyle {
    /// Builds [`TextStyleView::label_default`].
    pub fn default_label() -> (style: TextStyle)
        ensures
            style@ == TextStyleView::label_default(),
    {
        TextStyle::from(FontDesc { family: String::from_str("Arial"), size: 12 })
    }
}

} // verus!
