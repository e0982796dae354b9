use chart_mesh::{
    ChartContext, Color, MeshBackend, MeshLine, MeshPass, MeshStyle, ResolvedStyles, ShapeStyle,
    TextStyle,
};

/// A backend that accepts every pass and draws nothing.
struct Blank;

impl MeshBackend for Blank {
    type XValue = u32;
    type YValue = char;
    type ErrorType = ();

    fn draw_mesh<F>(&mut self, _pass: &MeshPass, _label_text: F) -> Result<(), ()>
    where
        F: Fn(&MeshLine<u32, char>) -> Option<String>,
    {
        Ok(())
    }
}

fn number(value: &u32) -> String {
    format!("#{}", value)
}

fn letter(value: &char) -> String {
    value.to_uppercase().to_string()
}

fn arial() -> TextStyle {
    TextStyle { family: "Arial".to_string(), size: 12, color: Color::rgb(0, 0, 0) }
}

fn courier() -> TextStyle {
    TextStyle { family: "Courier".to_string(), size: 9, color: Color::rgb(10, 20, 30).mix(80) }
}

fn times() -> TextStyle {
    TextStyle { family: "Times".to_string(), size: 20, color: Color::rgb(4, 5, 6) }
}

fn shade(opacity: u8) -> ShapeStyle {
    ShapeStyle { color: Color { red: 0, green: 0, blue: 0, opacity }, stroke_width: 1 }
}

#[test]
fn unset_styles_resolve_to_the_defaults() {
    let mut chart = ChartContext::new(Blank);
    let mesh = MeshStyle::new(&mut chart, 10, 10, number, letter);
    let styles = mesh.resolve_styles();
    assert_eq!(styles.coarse_grid, shade(20));
    assert_eq!(styles.fine_grid, shade(10));
    assert_eq!(styles.axis, shade(100));
    assert_eq!(styles.label, arial());
    assert_eq!(styles.axis_desc, arial());
}

#[test]
fn each_override_resolves_to_itself() {
    let red = ShapeStyle { color: Color::rgb(255, 0, 0), stroke_width: 2 };
    let green = ShapeStyle { color: Color::rgb(0, 255, 0), stroke_width: 3 };
    let blue = ShapeStyle { color: Color::rgb(0, 0, 255), stroke_width: 0 };
    let mut chart = ChartContext::new(Blank);
    let mut mesh = MeshStyle::new(&mut chart, 10, 10, number, letter);
    mesh.line_style_1(red)
        .line_style_2(green)
        .axis_style(blue)
        .label_style(courier())
        .axis_desc_style(times());
    let styles = mesh.resolve_styles();
    assert_eq!(styles.coarse_grid, red);
    assert_eq!(styles.fine_grid, green);
    assert_eq!(styles.axis, blue);
    assert_eq!(styles.label, courier());
    assert_eq!(styles.axis_desc, times());
}

#[test]
fn one_override_leaves_the_other_slots_at_their_defaults() {
    let red = ShapeStyle { color: Color::rgb(255, 0, 0), stroke_width: 2 };
    let mut chart = ChartContext::new(Blank);
    let mut mesh = MeshStyle::new(&mut chart, 10, 10, number, letter);
    mesh.line_style_2(red);
    let styles = mesh.resolve_styles();
    assert_eq!(styles.coarse_grid, shade(20));
    assert_eq!(styles.fine_grid, red);
    assert_eq!(styles.axis, shade(100));
    assert_eq!(styles.label, arial());
    assert_eq!(styles.axis_desc, arial());
}

#[test]
fn descriptions_fall_back_to_the_label_override() {
    let mut chart = ChartContext::new(Blank);
    let mut mesh = MeshStyle::new(&mut chart, 10, 10, number, letter);
    mesh.label_style(courier());
    let styles = mesh.resolve_styles();
    assert_eq!(styles.label, courier());
    assert_eq!(styles.axis_desc, courier());
}

#[test]
fn description_override_leaves_the_label_default() {
    let mut chart = ChartContext::new(Blank);
    let mut mesh = MeshStyle::new(&mut chart, 10, 10, number, letter);
    mesh.axis_desc_style(times());
    let styles = mesh.resolve_styles();
    assert_eq!(styles.label, arial());
    assert_eq!(styles.axis_desc, times());
}

#[test]
fn later_override_replaces_the_earlier_one() {
    let mut chart = ChartContext::new(Blank);
    let mut mesh = MeshStyle::new(&mut chart, 10, 10, number, letter);
    mesh.label_style(courier()).label_style(times()).axis_style(shade(1)).axis_style(shade(2));
    let styles = mesh.resolve_styles();
    assert_eq!(styles.label, times());
    assert_eq!(styles.axis_desc, times());
    assert_eq!(styles.axis, shade(2));
}

#[test]
fn resolving_twice_gives_the_same_styles() {
    let mut chart = ChartContext::new(Blank);
    let mut mesh = MeshStyle::new(&mut chart, 10, 10, number, letter);
    mesh.label_style(courier()).line_style_1(shade(33));
    let first = mesh.resolve_styles();
    let second = mesh.resolve_styles();
    assert_eq!(first.coarse_grid, second.coarse_grid);
    assert_eq!(first.fine_grid, second.fine_grid);
    assert_eq!(first.axis, second.axis);
    assert_eq!(first.label, second.label);
    assert_eq!(first.axis_desc, second.axis_desc);
}

#[test]
fn resolved_styles_fed_back_resolve_to_themselves() {
    let mut chart = ChartContext::new(Blank);
    let mut mesh = MeshStyle::new(&mut chart, 10, 10, number, letter);
    mesh.label_style(courier());
    let first = mesh.resolve_styles();
    mesh.line_style_1(first.coarse_grid)
        .line_style_2(first.fine_grid)
        .axis_style(first.axis)
        .label_style(first.label.clone())
        .axis_desc_style(first.axis_desc.clone());
    let second = mesh.resolve_styles();
    assert_eq!(second.coarse_grid, shade(20));
    assert_eq!(second.fine_grid, shade(10));
    assert_eq!(second.axis, shade(100));
    assert_eq!(second.label, courier());
    assert_eq!(second.axis_desc, courier());
}

#[test]
fn fine_pass_asks_for_ten_times_the_labels() {
    for (n_x, n_y) in [(0usize, 0usize), (1, 2), (5, 5), (12, 7), (usize::MAX, usize::MAX / 3)] {
        let mut chart = ChartContext::new(Blank);
        let mesh = MeshStyle::new(&mut chart, n_x, n_y, number, letter);
        let fine = mesh.fine_pass();
        let coarse = mesh.coarse_pass();
        assert_eq!(coarse.label_hints, (n_y as u128, n_x as u128));
        assert_eq!(fine.label_hints, (coarse.label_hints.0 * 10, coarse.label_hints.1 * 10));
    }
}

#[test]
fn fine_pass_carries_no_axis_and_no_description() {
    let mut chart = ChartContext::new(Blank);
    let mut mesh = MeshStyle::new(&mut chart, 4, 6, number, letter);
    mesh.x_desc("X").y_desc("Y").x_label_offset(15).axis_style(shade(70));
    let fine = mesh.fine_pass();
    assert_eq!(fine.label_hints, (60, 40));
    assert_eq!(fine.grid_style, shade(10));
    assert_eq!(fine.label_style, arial());
    assert!(fine.draw_x_mesh && fine.draw_y_mesh);
    assert_eq!(fine.x_label_offset, 15);
    assert!(!fine.draw_x_axis);
    assert!(!fine.draw_y_axis);
    assert_eq!(fine.axis_style, shade(70));
    assert_eq!(fine.axis_desc_style, arial());
    assert_eq!(fine.x_desc, None);
    assert_eq!(fine.y_desc, None);
}

#[test]
fn coarse_pass_carries_the_configuration() {
    let mut chart = ChartContext::new(Blank);
    let mut mesh = MeshStyle::new(&mut chart, 4, 6, number, letter);
    mesh.x_desc("X").y_desc("Y").x_label_offset(15).axis_style(shade(70)).disable_y_axis();
    let coarse = mesh.coarse_pass();
    assert_eq!(coarse.label_hints, (6, 4));
    assert_eq!(coarse.grid_style, shade(20));
    assert_eq!(coarse.label_style, arial());
    assert!(coarse.draw_x_mesh && coarse.draw_y_mesh);
    assert_eq!(coarse.x_label_offset, 15);
    assert!(coarse.draw_x_axis);
    assert!(!coarse.draw_y_axis);
    assert_eq!(coarse.axis_style, shade(70));
    assert_eq!(coarse.axis_desc_style, arial());
    assert_eq!(coarse.x_desc, Some("X".to_string()));
    assert_eq!(coarse.y_desc, Some("Y".to_string()));
}

#[test]
fn coarse_pass_without_mesh_keeps_axes_for_any_count() {
    for count in [0usize, 3, 77, usize::MAX] {
        let mut chart = ChartContext::new(Blank);
        let mut mesh = MeshStyle::new(&mut chart, count, count, number, letter);
        mesh.disable_x_mesh().disable_y_mesh().y_desc("Y");
        let coarse = mesh.coarse_pass();
        assert!(!coarse.draw_x_mesh);
        assert!(!coarse.draw_y_mesh);
        assert!(coarse.draw_x_axis);
        assert!(coarse.draw_y_axis);
        assert_eq!(coarse.y_desc, Some("Y".to_string()));
        let fine = mesh.fine_pass();
        assert!(!fine.draw_x_mesh);
        assert!(!fine.draw_y_mesh);
    }
}

#[test]
fn passes_do_not_change_the_configuration() {
    let mut chart = ChartContext::new(Blank);
    let mut mesh = MeshStyle::new(&mut chart, 4, 6, number, letter);
    mesh.label_style(courier()).x_desc("X");
    let before = mesh.coarse_pass();
    let _ = mesh.fine_pass();
    let _ = mesh.resolve_styles();
    let after = mesh.coarse_pass();
    assert_eq!(before.label_hints, after.label_hints);
    assert_eq!(before.label_style, after.label_style);
    assert_eq!(before.axis_desc_style, after.axis_desc_style);
    assert_eq!(before.x_desc, after.x_desc);
}

#[test]
fn drawing_keeps_the_settings() {
    let mut chart = ChartContext::new(Blank);
    let mut mesh = MeshStyle::new(&mut chart, 4, 6, number, letter);
    mesh.label_style(courier()).x_desc("X").disable_x_mesh();
    assert_eq!(mesh.draw(), Ok(()));
    let coarse = mesh.coarse_pass();
    assert_eq!(coarse.label_hints, (6, 4));
    assert_eq!(coarse.label_style, courier());
    assert_eq!(coarse.x_desc, Some("X".to_string()));
    assert!(!coarse.draw_x_mesh);
    assert_eq!(mesh.label_text(&MeshLine::XMesh(0, 8)), Some("#8".to_string()));
}

#[test]
fn label_goes_to_the_formatter_of_its_axis() {
    let mut chart = ChartContext::new(Blank);
    let mesh = MeshStyle::new(&mut chart, 4, 6, number, letter);
    assert_eq!(mesh.label_text(&MeshLine::XMesh(120, 42)), Some("#42".to_string()));
    assert_eq!(mesh.label_text(&MeshLine::YMesh(120, 'q')), Some("Q".to_string()));
    assert_eq!(mesh.label_text(&MeshLine::XMesh(-5, 0)), Some("#0".to_string()));
    assert_eq!(mesh.label_text(&MeshLine::YMesh(0, 'z')), Some("Z".to_string()));
}

#[test]
fn label_does_not_depend_on_the_pixel() {
    let mut chart = ChartContext::new(Blank);
    let mesh = MeshStyle::new(&mut chart, 4, 6, number, letter);
    assert_eq!(
        mesh.label_text(&MeshLine::XMesh(i32::MIN, 3)),
        mesh.label_text(&MeshLine::XMesh(i32::MAX, 3))
    );
}

#[test]
fn passes_take_their_styles_from_the_argument() {
    let styles = ResolvedStyles {
        coarse_grid: shade(1),
        fine_grid: shade(2),
        axis: shade(3),
        label: courier(),
        axis_desc: times(),
    };
    let mut chart = ChartContext::new(Blank);
    let mut mesh = MeshStyle::new(&mut chart, 4, 6, number, letter);
    mesh.line_style_1(shade(91)).line_style_2(shade(92)).x_desc("X").disable_x_axis();

    let fine = mesh.fine_pass_with(&styles);
    assert_eq!(fine.label_hints, (60, 40));
    assert_eq!(fine.grid_style, shade(2));
    assert_eq!(fine.label_style, courier());
    assert_eq!(fine.axis_style, shade(3));
    assert_eq!(fine.axis_desc_style, times());
    assert!(!fine.draw_x_axis && !fine.draw_y_axis);
    assert_eq!(fine.x_desc, None);

    let coarse = mesh.coarse_pass_with(&styles);
    assert_eq!(coarse.label_hints, (6, 4));
    assert_eq!(coarse.grid_style, shade(1));
    assert_eq!(coarse.label_style, courier());
    assert_eq!(coarse.axis_style, shade(3));
    assert_eq!(coarse.axis_desc_style, times());
    assert!(!coarse.draw_x_axis);
    assert!(coarse.draw_y_axis);
    assert_eq!(coarse.x_desc, Some("X".to_string()));

    assert_eq!(mesh.fine_pass().grid_style, shade(92));
    assert_eq!(mesh.coarse_pass().grid_style, shade(91));
}
