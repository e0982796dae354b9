//! What holds of every configuration, proved from the definitions in
//! [`crate::mesh`].

use crate::context::{DrawError, DrawnPass, MeshBackend};
use crate::mesh::{dispatches, MeshConfig, MeshStyle};
use crate::pass::MeshLine;
use crate::style::{ShapeStyle, TextStyleView};
use vstd::prelude::*;

verus! {

/// With the gridlines of both axes turned off, neither pass asks for a
/// gridline, whatever label counts are put in place of the configured ones,
/// and the coarse pass still carries the axis lines and descriptions as
/// configured.
pub proof fn lemma_mesh_off_draws_no_gridlines(config: MeshConfig, n_x_labels: nat, n_y_labels: nat)
    requires
        !config.draw_x_mesh,
        !config.draw_y_mesh,
    ensures
        ({
            let counted = MeshConfig { n_x_labels, n_y_labels, ..config };
            &&& !counted.coarse_pass().draws_gridlines()
            &&& !counted.fine_pass().draws_gridlines()
            &&& counted.coarse_pass().draw_x_axis == config.draw_x_axis
            &&& counted.coarse_pass().draw_y_axis == config.draw_y_axis
            &&& counted.coarse_pass().axis_style == config.resolved().axis
            &&& counted.coarse_pass().x_desc == config.x_desc
            &&& counted.coarse_pass().y_desc == config.y_desc
        }),
{
}

/// A style slot with an override resolves to that override.
pub proof fn lemma_override_is_used(config: MeshConfig)
    ensures
        config.line_style_1 matches Some(style) ==> config.resolved().coarse_grid == style,
        config.line_style_2 matches Some(style) ==> config.resolved().fine_grid == style,
        config.axis_style matches Some(style) ==> config.resolved().axis == style,
        config.label_style matches Some(style) ==> config.resolved().label == style,
        config.axis_desc_style matches Some(style) ==> config.resolved().axis_desc == style,
{
}

/// A style slot without an override resolves to its default. For the axis
/// descriptions that is the resolved label style: the label override where
/// one is set, the label default where none is.
pub proof fn lemma_unset_resolves_to_default(config: MeshConfig)
    ensures
        config.line_style_1 is None ==> config.resolved().coarse_grid
            == ShapeStyle::coarse_grid_default(),
        config.line_style_2 is None ==> config.resolved().fine_grid
            == ShapeStyle::fine_grid_default(),
        config.axis_style is None ==> config.resolved().axis == ShapeStyle::axis_default(),
        config.label_style is None ==> config.resolved().label == TextStyleView::label_default(),
        config.axis_desc_style is None ==> config.resolved().axis_desc == config.resolved().label,
        config.axis_desc_style is None ==> (config.label_style matches Some(style)
            ==> config.resolved().axis_desc == style),
        config.axis_desc_style is None && config.label_style is None ==> config.resolved().axis_desc
            == TextStyleView::label_default(),
{
}

/// Resolving is idempotent: a configuration whose overrides are the styles
/// another one resolved to resolves to the same styles.
pub proof fn lemma_resolution_is_idempotent(config: MeshConfig)
    ensures
        (MeshConfig {
            line_style_1: Some(config.resolved().coarse_grid),
            line_style_2: Some(config.resolved().fine_grid),
            axis_style: Some(config.resolved().axis),
            label_style: Some(config.resolved().label),
            axis_desc_style: Some(config.resolved().axis_desc),
            ..config
        }).resolved() == config.resolved(),
{
}

/// Both passes draw with the resolved styles: each its own grid style, and
/// the same label, axis and description styles.
pub proof fn lemma_passes_use_resolved_styles(config: MeshConfig)
    ensures
        config.fine_pass().grid_style == config.resolved().fine_grid,
        config.coarse_pass().grid_style == config.resolved().coarse_grid,
        config.fine_pass().label_style == config.resolved().label,
        config.coarse_pass().label_style == config.resolved().label,
        config.fine_pass().axis_style == config.resolved().axis,
        config.coarse_pass().axis_style == config.resolved().axis,
        config.fine_pass().axis_desc_style == config.resolved().axis_desc,
        config.coarse_pass().axis_desc_style == config.resolved().axis_desc,
{
}

/// The fine pass asks for ten times the label counts of the coarse pass,
/// shares its mesh flags and label offset, and carries no axis line and no
/// description.
pub proof fn lemma_fine_pass_is_tenfold(config: MeshConfig)
    ensures
        config.fine_pass().label_hints.0 == 10 * config.coarse_pass().label_hints.0,
        config.fine_pass().label_hints.1 == 10 * config.coarse_pass().label_hints.1,
        config.fine_pass().draw_x_mesh == config.coarse_pass().draw_x_mesh,
        config.fine_pass().draw_y_mesh == config.coarse_pass().draw_y_mesh,
        config.fine_pass().x_label_offset == config.coarse_pass().x_label_offset,
        !config.fine_pass().draws_axes(),
        config.fine_pass().x_desc is None,
        config.fine_pass().y_desc is None,
{
}

/// The label of an X gridline does not depend on the Y formatter.
pub proof fn lemma_x_label_ignores_y_formatter<
    X,
    Y,
    FX: Fn(&X) -> String,
    FY1: Fn(&Y) -> String,
    FY2: Fn(&Y) -> String,
>(format_x: FX, format_y: FY1, other_y: FY2, line: MeshLine<X, Y>, text: Option<String>)
    requires
        line is XMesh,
    ensures
        dispatches(format_x, format_y, line, text) == dispatches(format_x, other_y, line, text),
        dispatches(format_x, format_y, line, text) <==> (line matches MeshLine::XMesh(_, value)
            && text matches Some(label) && call_ensures(format_x, (&value,), label)),
{
}

/// The label of a Y gridline does not depend on the X formatter.
pub proof fn lemma_y_label_ignores_x_formatter<
    X,
    Y,
    FX1: Fn(&X) -> String,
    FX2: Fn(&X) -> String,
    FY: Fn(&Y) -> String,
>(format_x: FX1, other_x: FX2, format_y: FY, line: MeshLine<X, Y>, text: Option<String>)
    requires
        line is YMesh,
    ensures
        dispatches(format_x, format_y, line, text) == dispatches(other_x, format_y, line, text),
        dispatches(format_x, format_y, line, text) <==> (line matches MeshLine::YMesh(_, value)
            && text matches Some(label) && call_ensures(format_y, (&value,), label)),
{
}

/// A render with the gridlines of both axes turned off hands the target no
/// pass that asks for a gridline.
pub proof fn lemma_render_without_mesh<
    'a,
    B: MeshBackend,
    FX: Fn(&B::XValue) -> String,
    FY: Fn(&B::YValue) -> String,
>(
    mesh: MeshStyle<'a, B, FX, FY>,
    before: Seq<DrawnPass<B::XValue, B::YValue, B::ErrorType>>,
    after: Seq<DrawnPass<B::XValue, B::YValue, B::ErrorType>>,
    result: Result<(), DrawError<B::ErrorType>>,
)
    requires
        mesh.rendered(before, after, result),
        !mesh@.draw_x_mesh,
        !mesh@.draw_y_mesh,
    ensures
        forall|i: int| before.len() <= i < after.len() ==> !(#[trigger] after[i]).pass.draws_gridlines(),
{
}

/// A render that reaches its second pass asked, in its first, for ten times
/// the labels of the second, and for no label text, no axis line and no
/// description.
pub proof fn lemma_render_is_fine_then_coarse<
    'a,
    B: MeshBackend,
    FX: Fn(&B::XValue) -> String,
    FY: Fn(&B::YValue) -> String,
>(
    mesh: MeshStyle<'a, B, FX, FY>,
    before: Seq<DrawnPass<B::XValue, B::YValue, B::ErrorType>>,
    after: Seq<DrawnPass<B::XValue, B::YValue, B::ErrorType>>,
    result: Result<(), DrawError<B::ErrorType>>,
)
    requires
        mesh.rendered(before, after, result),
        after.len() == before.len() + 2,
    ensures
        ({
            let fine = after[before.len() as int];
            let coarse = after[before.len() as int + 1];
            &&& fine.outcome is Ok
            &&& fine.pass.label_hints.0 == 10 * coarse.pass.label_hints.0
            &&& fine.pass.label_hints.1 == 10 * coarse.pass.label_hints.1
            &&& !fine.pass.draws_axes()
            &&& fine.pass.x_desc is None
            &&& fine.pass.y_desc is None
            &&& forall|line: MeshLine<B::XValue, B::YValue>, text: Option<String>| #[trigger]
                fine.may_label(line, text) ==> text is None
            &&& forall|line: MeshLine<B::XValue, B::YValue>, text: Option<String>| #[trigger]
                coarse.may_label(line, text) ==> text is Some
        }),
{
}

/// A configuration renders once: whatever the first render returned, it left
/// no target, so the second fails with [`DrawError::NoTarget`] and changes
/// nothing.
pub proof fn lemma_second_draw_fails<
    'a,
    B: MeshBackend,
    FX: Fn(&B::XValue) -> String,
    FY: Fn(&B::YValue) -> String,
>(
    start: MeshStyle<'a, B, FX, FY>,
    once: MeshStyle<'a, B, FX, FY>,
    twice: MeshStyle<'a, B, FX, FY>,
    first: Result<(), DrawError<B::ErrorType>>,
    second: Result<(), DrawError<B::ErrorType>>,
)
    requires
        once.after_draw(start, first),
        twice.after_draw(once, second),
    ensures
        second == Err::<(), DrawError<B::ErrorType>>(DrawError::NoTarget),
        twice@ == start@,
        twice.same_bindings(once),
{
}

} // verus!
