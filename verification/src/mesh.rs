//! The mesh configuration, its style resolution and its two rendering passes.

use crate::context::{ChartContext, DrawError, DrawnPass, MeshBackend};
use crate::pass::{text_of, MeshLine, MeshPass, MeshPassView};
use crate::style::{ShapeStyle, TextStyle, TextStyleView};
use vstd::prelude::*;
use vstd::string::StringExecFns;

verus! {

/// How many times denser than the coarse grid the fine grid is asked to be.
pub const FINE_GRANULARITY: u128 = 10;

/// The declarative part of a [`MeshStyle`]: the mathematical value of its
/// flags, counts, style overrides and descriptions.
pub struct MeshConfig {
    /// Whether the gridlines of the X axis are drawn, in both passes.
    pub draw_x_mesh: bool,
    /// Whether the gridlines of the Y axis are drawn, in both passes.
    pub draw_y_mesh: bool,
    /// Whether the X axis line is drawn.
    pub draw_x_axis: bool,
    /// Whether the Y axis line is drawn.
    pub draw_y_axis: bool,
    /// Pixel offset of the X tick labels.
    pub x_label_offset: int,
    /// Upper bound on the number of labels along the X axis.
    pub n_x_labels: nat,
    /// Upper bound on the number of labels along the Y axis.
    pub n_y_labels: nat,
    /// Override of the axis description style.
    pub axis_desc_style: Option<TextStyleView>,
    /// Description of the X axis, if it has one.
    pub x_desc: Option<Seq<char>>,
    /// Description of the Y axis, if it has one.
    pub y_desc: Option<Seq<char>>,
    /// Override of the coarse grid style.
    pub line_style_1: Option<ShapeStyle>,
    /// Override of the fine grid style.
    pub line_style_2: Option<ShapeStyle>,
    /// Override of the axis line style.
    pub axis_style: Option<ShapeStyle>,
    /// Override of the tick label style.
    pub label_style: Option<TextStyleView>,
}

/// The five styles a render uses, each either an override or its default.
#[derive(Debug)]
pub struct ResolvedStyles {
    pub coarse_grid: ShapeStyle,
    pub fine_grid: ShapeStyle,
    pub axis: ShapeStyle,
    pub label: TextStyle,
    pub axis_desc: TextStyle,
}

/// The mathematical value of [`ResolvedStyles`].
pub struct ResolvedStylesView {
    pub coarse_grid: ShapeStyle,
    pub fine_grid: ShapeStyle,
    pub axis: ShapeStyle,
    pub label: TextStyleView,
    pub axis_desc: TextStyleView,
}

impl View for ResolvedStyles {
    type V = ResolvedStylesView;

    open spec fn view(&self) -> ResolvedStylesView {
        ResolvedStylesView {
            coarse_grid: self.coarse_grid,
            fine_grid: self.fine_grid,
            axis: self.axis,
            label: self.label@,
            axis_desc: self.axis_desc@,
        }
    }
}

/// The value of an optional text style.
pub open spec fn text_style_of(style: Option<TextStyle>) -> Option<TextStyleView> {
    match style {
        Some(style) => Some(style@),
        None => None,
    }
}

impl MeshConfig {
    /// The configuration a chart starts from: everything drawn, no offset,
    /// no override, no description.
    pub open spec fn initial(n_x_labels: nat, n_y_labels: nat) -> MeshConfig {
        MeshConfig {
            draw_x_mesh: true,
            draw_y_mesh: true,
            draw_x_axis: true,
            draw_y_axis: true,
            x_label_offset: 0,
            n_x_labels,
            n_y_labels,
            axis_desc_style: None,
            x_desc: None,
            y_desc: None,
            line_style_1: None,
            line_style_2: None,
            axis_style: None,
            label_style: None,
        }
    }

    /// The label style of a render: the override, else the default.
    pub open spec fn resolved_label(self) -> TextStyleView {
        match self.label_style {
            Some(style) => style,
            None => TextStyleView::label_default(),
        }
    }

    /// The styles of a render. Each slot is the whole override or the whole
    /// default; the axis descriptions fall back to the resolved label style.
    pub open spec fn resolved(self) -> ResolvedStylesView {
        ResolvedStylesView {
            coarse_grid: match self.line_style_1 {
                Some(style) => style,
                None => ShapeStyle::coarse_grid_default(),
            },
            fine_grid: match self.line_style_2 {
                Some(style) => style,
                None => ShapeStyle::fine_grid_default(),
            },
            axis: match self.axis_style {
                Some(style) => style,
                None => ShapeStyle::axis_default(),
            },
            label: self.resolved_label(),
            axis_desc: match self.axis_desc_style {
                Some(style) => style,
                None => self.resolved_label(),
            },
        }
    }

    /// The first pass drawn with `styles`: the dense background grid, without
    /// labels, axis lines or descriptions.
    pub open spec fn fine_pass_with(self, styles: ResolvedStylesView) -> MeshPassView {
        MeshPassView {
            label_hints: (
                self.n_y_labels * (FINE_GRANULARITY as nat),
                self.n_x_labels * (FINE_GRANULARITY as nat),
            ),
            grid_style: styles.fine_grid,
            label_style: styles.label,
            draw_x_mesh: self.draw_x_mesh,
            draw_y_mesh: self.draw_y_mesh,
            x_label_offset: self.x_label_offset,
            draw_x_axis: false,
            draw_y_axis: false,
            axis_style: styles.axis,
            axis_desc_style: styles.axis_desc,
            x_desc: None,
            y_desc: None,
        }
    }

    /// The second pass drawn with `styles`: the requested grid with axis
    /// lines, tick labels and descriptions, drawn on top of the first.
    pub open spec fn coarse_pass_with(self, styles: ResolvedStylesView) -> MeshPassView {
        MeshPassView {
            label_hints: (self.n_y_labels, self.n_x_labels),
            grid_style: styles.coarse_grid,
            label_style: styles.label,
            draw_x_mesh: self.draw_x_mesh,
            draw_y_mesh: self.draw_y_mesh,
            x_label_offset: self.x_label_offset,
            draw_x_axis: self.draw_x_axis,
            draw_y_axis: self.draw_y_axis,
            axis_style: styles.axis,
            axis_desc_style: styles.axis_desc,
            x_desc: self.x_desc,
            y_desc: self.y_desc,
        }
    }

    /// The first pass of a render, drawn with the resolved styles.
    pub open spec fn fine_pass(self) -> MeshPassView {
        self.fine_pass_with(self.resolved())
    }

    /// The second pass of a render, drawn with the resolved styles.
    pub open spec fn coarse_pass(self) -> MeshPassView {
        self.coarse_pass_with(self.resolved())
    }
}

/// Whether `text` is a label that the formatter of the gridline's own axis
/// may give for the gridline's value.
pub open spec fn dispatches<X, Y, FX: Fn(&X) -> String, FY: Fn(&Y) -> String>(
    format_x: FX,
    format_y: FY,
    line: MeshLine<X, Y>,
    text: Option<String>,
) -> bool {
    match line {
        MeshLine::XMesh(_, value) => text matches Some(label) && call_ensures(
            format_x,
            (&value,),
            label,
        ),
        MeshLine::YMesh(_, value) => text matches Some(label) && call_ensures(
            format_y,
            (&value,),
            label,
        ),
    }
}

/// The configuration of the mesh of one chart.
///
/// It is set up through chained mutators and rendered once by
/// [`MeshStyle::draw`], which takes the target out of it.
#[verifier::reject_recursive_types(B)]
#[verifier::reject_recursive_types(FX)]
#[verifier::reject_recursive_types(FY)]
pub struct MeshStyle<'a, B: MeshBackend, FX: Fn(&B::XValue) -> String, FY: Fn(&B::YValue) -> String> {
    draw_x_mesh: bool,
    draw_y_mesh: bool,
    draw_x_axis: bool,
    draw_y_axis: bool,
    x_label_offset: i32,
    n_x_labels: usize,
    n_y_labels: usize,
    axis_desc_style: Option<TextStyle>,
    x_desc: Option<String>,
    y_desc: Option<String>,
    line_style_1: Option<ShapeStyle>,
    line_style_2: Option<ShapeStyle>,
    axis_style: Option<ShapeStyle>,
    label_style: Option<TextStyle>,
    format_x: FX,
    format_y: FY,
    target: Option<&'a mut ChartContext<B>>,
}

impl<'a, B: MeshBackend, FX: Fn(&B::XValue) -> String, FY: Fn(&B::YValue) -> String> View for MeshStyle<
    'a,
    B,
    FX,
    FY,
> {
    type V = MeshConfig;

    closed spec fn view(&self) -> MeshConfig {
        MeshConfig {
            draw_x_mesh: self.draw_x_mesh,
            draw_y_mesh: self.draw_y_mesh,
            draw_x_axis: self.draw_x_axis,
            draw_y_axis: self.draw_y_axis,
            x_label_offset: self.x_label_offset as int,
            n_x_labels: self.n_x_labels as nat,
            n_y_labels: self.n_y_labels as nat,
            axis_desc_style: text_style_of(self.axis_desc_style),
            x_desc: text_of(self.x_desc),
            y_desc: text_of(self.y_desc),
            line_style_1: self.line_style_1,
            line_style_2: self.line_style_2,
            axis_style: self.axis_style,
            label_style: text_style_of(self.label_style),
        }
    }
}

impl<'a, B: MeshBackend, FX: Fn(&B::XValue) -> String, FY: Fn(&B::YValue) -> String> MeshStyle<
    'a,
    B,
    FX,
    FY,
> {
    /// Both formatters accept every value of their axis.
    #[verifier::type_invariant]
    spec fn formatters_total(&self) -> bool {
        &&& forall|value: &B::XValue| call_requires(self.format_x, (value,))
        &&& forall|value: &B::YValue| call_requires(self.format_y, (value,))
    }

    /// The formatter bound to the X axis.
    pub closed spec fn x_formatter(&self) -> FX {
        self.format_x
    }

    /// The formatter bound to the Y axis.
    pub closed spec fn y_formatter(&self) -> FY {
        self.format_y
    }

    /// The render target, until the mesh has been drawn.
    pub closed spec fn target(&self) -> Option<&'a mut ChartContext<B>> {
        self.target
    }

    /// Whether the target and both formatters are those of `other`.
    pub open spec fn same_bindings(&self, other: Self) -> bool {
        &&& self.target() == other.target()
        &&& self.x_formatter() == other.x_formatter()
        &&& self.y_formatter() == other.y_formatter()
    }

    /// Whether `text` is a label this configuration may give to `line`.
    pub open spec fn labels(&self, line: MeshLine<B::XValue, B::YValue>, text: Option<String>) -> bool {
        dispatches(self.x_formatter(), self.y_formatter(), line, text)
    }

    /// Whether a render of this configuration, on a target whose record was
    /// `before`, may leave the record `after` and return `result`.
    ///
    /// The record grows by the fine pass, whose callback gives no text, and
    /// then, unless the fine pass failed, by the coarse pass, whose callback
    /// dispatches to the formatters. The result is that of the last pass
    /// attempted.
    pub open spec fn rendered(
        &self,
        before: Seq<DrawnPass<B::XValue, B::YValue, B::ErrorType>>,
        after: Seq<DrawnPass<B::XValue, B::YValue, B::ErrorType>>,
        result: Result<(), DrawError<B::ErrorType>>,
    ) -> bool {
        let n = before.len() as int;
        &&& after.len() > n
        &&& after.take(n) == before
        &&& after[n].pass == self@.fine_pass()
        &&& forall|line: MeshLine<B::XValue, B::YValue>, text: Option<String>| #[trigger]
            after[n].may_label(line, text) ==> text is None
        &&& match after[n].outcome {
            Err(_) => after.len() == n + 1 && result == DrawError::lifted(after[n].outcome),
            Ok(_) => {
                &&& after.len() == n + 2
                &&& after[n + 1].pass == self@.coarse_pass()
                &&& forall|line: MeshLine<B::XValue, B::YValue>, text: Option<String>| #[trigger]
                    after[n + 1].may_label(line, text) ==> self.labels(line, text)
                &&& result == DrawError::lifted(after[n + 1].outcome)
            },
        }
    }

    /// Whether this is a configuration that a render of `before` may leave
    /// behind, having returned `result`: the settings and formatters are
    /// kept, the target is gone, and the render failed for want of a target
    /// exactly if `before` held none.
    pub open spec fn after_draw(&self, before: Self, result: Result<(), DrawError<B::ErrorType>>) -> bool {
        &&& self@ == before@
        &&& self.x_formatter() == before.x_formatter()
        &&& self.y_formatter() == before.y_formatter()
        &&& self.target() is None
        &&& before.target() is None <==> result == Err::<(), DrawError<B::ErrorType>>(
            DrawError::NoTarget,
        )
    }

    /// A configuration with the defaults, bound to `target` and to the
    /// label counts and formatters the owning chart chooses.
    pub fn new(
        target: &'a mut ChartContext<B>,
        n_x_labels: usize,
        n_y_labels: usize,
        format_x: FX,
        format_y: FY,
    ) -> (mesh: Self)
        requires
            forall|value: &B::XValue| call_requires(format_x, (value,)),
            forall|value: &B::YValue| call_requires(format_y, (value,)),
        ensures
            mesh@ == MeshConfig::initial(n_x_labels as nat, n_y_labels as nat),
            mesh.target() is Some,
            *mesh.target().unwrap() == *old(target),
            *final(mesh.target().unwrap()) == *final(target),
            mesh.x_formatter() == format_x,
            mesh.y_formatter() == format_y,
    {
        MeshStyle {
            draw_x_mesh: true,
            draw_y_mesh: true,
            draw_x_axis: true,
            draw_y_axis: true,
            x_label_offset: 0,
            n_x_labels,
            n_y_labels,
            axis_desc_style: None,
            x_desc: None,
            y_desc: None,
            line_style_1: None,
            line_style_2: None,
            axis_style: None,
            label_style: None,
            format_x,
            format_y,
            target: Some(target),
        }
    }

    /// Sets the pixel offset of the X tick labels, which places a label between
    /// two gridlines, as a histogram wants it.
    pub fn x_label_offset(&mut self, value: i32) -> (mesh: &mut Self)
        ensures
            mesh@ == (MeshConfig { x_label_offset: value as int, ..old(self)@ }),
            mesh.same_bindings(*old(self)),
            *final(self) == *final(mesh),
    {
        proof {
            use_type_invariant(&*self);
        }
        self.x_label_offset = value;
        self
    }

    /// Turns the gridlines of the X axis off.
    pub fn disable_x_mesh(&mut self) -> (mesh: &mut Self)
        ensures
            mesh@ == (MeshConfig { draw_x_mesh: false, ..old(self)@ }),
            mesh.same_bindings(*old(self)),
            *final(self) == *final(mesh),
    {
        proof {
            use_type_invariant(&*self);
        }
        self.draw_x_mesh = false;
        self
    }

    /// Turns the gridlines of the Y axis off.
    pub fn disable_y_mesh(&mut self) -> (mesh: &mut Self)
        ensures
            mesh@ == (MeshConfig { draw_y_mesh: false, ..old(self)@ }),
            mesh.same_bindings(*old(self)),
            *final(self) == *final(mesh),
    {
        proof {
            use_type_invariant(&*self);
        }
        self.draw_y_mesh = false;
        self
    }

    /// Turns the X axis line off.
    pub fn disable_x_axis(&mut self) -> (mesh: &mut Self)
        ensures
            mesh@ == (MeshConfig { draw_x_axis: false, ..old(self)@ }),
            mesh.same_bindings(*old(self)),
            *final(self) == *final(mesh),
    {
        proof {
            use_type_invariant(&*self);
        }
        self.draw_x_axis = false;
        self
    }

    /// Turns the Y axis line off.
    pub fn disable_y_axis(&mut self) -> (mesh: &mut Self)
        ensures
            mesh@ == (MeshConfig { draw_y_axis: false, ..old(self)@ }),
            mesh.same_bindings(*old(self)),
            *final(self) == *final(mesh),
    {
        proof {
            use_type_invariant(&*self);
        }
        self.draw_y_axis = false;
        self
    }

    /// Overrides the style of the axis lines.
    pub fn axis_style(&mut self, style: ShapeStyle) -> (mesh: &mut Self)
        ensures
            mesh@ == (MeshConfig { axis_style: Some(style), ..old(self)@ }),
            mesh.same_bindings(*old(self)),
            *final(self) == *final(mesh),
    {
        proof {
            use_type_invariant(&*self);
        }
        self.axis_style = Some(style);
        self
    }

    /// Sets how many labels the X axis gets at most.
    pub fn x_labels(&mut self, value: usize) -> (mesh: &mut Self)
        ensures
            mesh@ == (MeshConfig { n_x_labels: value as nat, ..old(self)@ }),
            mesh.same_bindings(*old(self)),
            *final(self) == *final(mesh),
    {
        proof {
            use_type_invariant(&*self);
        }
        self.n_x_labels = value;
        self
    }

    /// Sets how many labels the Y axis gets at most.
    pub fn y_labels(&mut self, value: usize) -> (mesh: &mut Self)
        ensures
            mesh@ == (MeshConfig { n_y_labels: value as nat, ..old(self)@ }),
            mesh.same_bindings(*old(self)),
            *final(self) == *final(mesh),
    {
        proof {
            use_type_invariant(&*self);
        }
        self.n_y_labels = value;
        self
    }

    /// Overrides the style of the coarse grid.
    pub fn line_style_1(&mut self, style: ShapeStyle) -> (mesh: &mut Self)
        ensures
            mesh@ == (MeshConfig { line_style_1: Some(style), ..old(self)@ }),
            mesh.same_bindings(*old(self)),
            *final(self) == *final(mesh),
    {
        proof {
            use_type_invariant(&*self);
        }
        self.line_style_1 = Some(style);
        self
    }

    /// Overrides the style of the fine grid.
    pub fn line_style_2(&mut self, style: ShapeStyle) -> (mesh: &mut Self)
        ensures
            mesh@ == (MeshConfig { line_style_2: Some(style), ..old(self)@ }),
            mesh.same_bindings(*old(self)),
            *final(self) == *final(mesh),
    {
        proof {
            use_type_invariant(&*self);
        }
        self.line_style_2 = Some(style);
        self
    }

    /// Overrides the style of the tick labels.
    pub fn label_style(&mut self, style: TextStyle) -> (mesh: &mut Self)
        ensures
            mesh@ == (MeshConfig { label_style: Some(style@), ..old(self)@ }),
            mesh.same_bindings(*old(self)),
            *final(self) == *final(mesh),
    {
        proof {
            use_type_invariant(&*self);
        }
        self.label_style = Some(style);
        self
    }

    /// Replaces the formatter of the X labels.
    pub fn x_label_formatter(&mut self, fmt: FX) -> (mesh: &mut Self)
        requires
            forall|value: &B::XValue| call_requires(fmt, (value,)),
        ensures
            mesh@ == old(self)@,
            mesh.target() == old(self).target(),
            mesh.x_formatter() == fmt,
            mesh.y_formatter() == old(self).y_formatter(),
            *final(self) == *final(mesh),
    {
        proof {
            use_type_invariant(&*self);
        }
        self.format_x = fmt;
        self
    }

    /// Replaces the formatter of the Y labels.
    pub fn y_label_formatter(&mut self, fmt: FY) -> (mesh: &mut Self)
        requires
            forall|value: &B::YValue| call_requires(fmt, (value,)),
        ensures
            mesh@ == old(self)@,
            mesh.target() == old(self).target(),
            mesh.x_formatter() == old(self).x_formatter(),
            mesh.y_formatter() == fmt,
            *final(self) == *final(mesh),
    {
        proof {
            use_type_invariant(&*self);
        }
        self.format_y = fmt;
        self
    }

    /// Overrides the style of the axis descriptions. Without an override they
    /// are set in the label style.
    pub fn axis_desc_style(&mut self, style: TextStyle) -> (mesh: &mut Self)
        ensures
            mesh@ == (MeshConfig { axis_desc_style: Some(style@), ..old(self)@ }),
            mesh.same_bindings(*old(self)),
            *final(self) == *final(mesh),
    {
        proof {
            use_type_invariant(&*self);
        }
        self.axis_desc_style = Some(style);
        self
    }

    /// Sets the description of the X axis.
    pub fn x_desc(&mut self, desc: &str) -> (mesh: &mut Self)
        ensures
            mesh@ == (MeshConfig { x_desc: Some(desc@), ..old(self)@ }),
            mesh.same_bindings(*old(self)),
            *final(self) == *final(mesh),
    {
        proof {
            use_type_invariant(&*self);
        }
        self.x_desc = Some(String::from_str(desc));
        self
    }

    /// Sets the description of the Y axis.
    pub fn y_desc(&mut self, desc: &str) -> (mesh: &mut Self)
        ensures
            mesh@ == (MeshConfig { y_desc: Some(desc@), ..old(self)@ }),
            mesh.same_bindings(*old(self)),
            *final(self) == *final(mesh),
    {
        proof {
            use_type_invariant(&*self);
        }
        self.y_desc = Some(String::from_str(desc));
        self
    }

    /// Resolves the five style slots for one render, leaving the stored
    /// overrides as they are.
    pub fn resolve_styles(&self) -> (styles: ResolvedStyles)
        ensures
            styles@ == self@.resolved(),
    {
        let label = match &self.label_style {
            Some(style) => style.clone(),
            None => TextStyle::default_label(),
        };
        let axis_desc = match &self.axis_desc_style {
            Some(style) => style.clone(),
            None => label.clone(),
        };
        ResolvedStyles {
            coarse_grid: match self.line_style_1 {
                Some(style) => style,
                None => ShapeStyle::default_coarse_grid(),
            },
            fine_grid: match self.line_style_2 {
                Some(style) => style,
                None => ShapeStyle::default_fine_grid(),
            },
            axis: match self.axis_style {
                Some(style) => style,
                None => ShapeStyle::default_axis(),
            },
            label,
            axis_desc,
        }
    }

    /// The arguments of the fine pass, drawn with `styles`.
    pub fn fine_pass_with(&self, styles: &ResolvedStyles) -> (pass: MeshPass)
        ensures
            pass@ == self@.fine_pass_with(styles@),
    {
        MeshPass {
            label_hints: (
                self.n_y_labels as u128 * FINE_GRANULARITY,
                self.n_x_labels as u128 * FINE_GRANULARITY,
            ),
            grid_style: styles.fine_grid,
            label_style: styles.label.clone(),
            draw_x_mesh: self.draw_x_mesh,
            draw_y_mesh: self.draw_y_mesh,
            x_label_offset: self.x_label_offset,
            draw_x_axis: false,
            draw_y_axis: false,
            axis_style: styles.axis,
            axis_desc_style: styles.axis_desc.clone(),
            x_desc: None,
            y_desc: None,
        }
    }

    /// The arguments of the coarse pass, drawn with `styles`.
    pub fn coarse_pass_with(&self, styles: &ResolvedStyles) -> (pass: MeshPass)
        ensures
            pass@ == self@.coarse_pass_with(styles@),
    {
        MeshPass {
            label_hints: (self.n_y_labels as u128, self.n_x_labels as u128),
            grid_style: styles.coarse_grid,
            label_style: styles.label.clone(),
            draw_x_mesh: self.draw_x_mesh,
            draw_y_mesh: self.draw_y_mesh,
            x_label_offset: self.x_label_offset,
            draw_x_axis: self.draw_x_axis,
            draw_y_axis: self.draw_y_axis,
            axis_style: styles.axis,
            axis_desc_style: styles.axis_desc.clone(),
            x_desc: self.x_desc.clone(),
            y_desc: self.y_desc.clone(),
        }
    }

    /// The arguments of the fine pass of a render.
    pub fn fine_pass(&self) -> (pass: MeshPass)
        ensures
            pass@ == self@.fine_pass(),
    {
        let styles = self.resolve_styles();
        self.fine_pass_with(&styles)
    }

    /// The arguments of the coarse pass of a render.
    pub fn coarse_pass(&self) -> (pass: MeshPass)
        ensures
            pass@ == self@.coarse_pass(),
    {
        let styles = self.resolve_styles();
        self.coarse_pass_with(&styles)
    }

    /// The label of a gridline in the coarse pass: the text that the
    /// formatter of the gridline's own axis gives for its value.
    pub fn label_text(&self, line: &MeshLine<B::XValue, B::YValue>) -> (text: Option<String>)
        ensures
            self.labels(*line, text),
    {
        proof {
            use_type_invariant(self);
        }
        match line {
            MeshLine::XMesh(_, value) => Some((self.format_x)(value)),
            MeshLine::YMesh(_, value) => Some((self.format_y)(value)),
        }
    }

    /// Draws the configured mesh on the target: the styles are resolved
    /// once, then the fine pass is drawn, then the coarse pass on top of it.
    ///
    /// The target is taken out of the configuration, so a second call finds
    /// none and fails with [`DrawError::NoTarget`] without drawing. A pass
    /// that fails ends the render with the backend's error; what was drawn
    /// before stays drawn.
    pub fn draw(&mut self) -> (result: Result<(), DrawError<B::ErrorType>>)
        ensures
            final(self).after_draw(*old(self), result),
            old(self).target() matches Some(target) ==> old(self).rendered(
                target.drawn(),
                final(target).drawn(),
                result,
            ),
    {
        proof {
            use_type_invariant(&*self);
        }
        let mut slot: Option<&'a mut ChartContext<B>> = None;
        std::mem::swap(&mut slot, &mut self.target);
        let target = match slot {
            Some(target) => target,
            None => {
                return Err(DrawError::NoTarget);
            },
        };
        let ghost before = target.drawn();
        let styles = self.resolve_styles();
        let fine = self.fine_pass_with(&styles);
        let no_label = |line: &MeshLine<B::XValue, B::YValue>| -> (text: Option<String>)
            ensures
                text is None,
            {
                None
            };
        let fine_outcome = target.draw_mesh(&fine, no_label);
        assert(target.drawn().take(before.len() as int) == before);
        if fine_outcome.is_err() {
            return DrawError::lift(fine_outcome);
        }
        let coarse = self.coarse_pass_with(&styles);
        let formatted = |line: &MeshLine<B::XValue, B::YValue>| -> (text: Option<String>)
            ensures
                self.labels(*line, text),
            {
                self.label_text(line)
            };
        let coarse_outcome = target.draw_mesh(&coarse, formatted);
        assert(target.drawn().take(before.len() as int) == before);
        DrawError::lift(coarse_outcome)
    }
}

} // verus!
