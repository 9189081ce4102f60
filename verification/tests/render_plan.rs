use niri_shot::canvas::EditorCanvas;
use niri_shot::render::{blur_blocks, draw_ops, export_ops, shape_ops, BlurBlock, RenderOp};
use niri_shot::shapes::{Color, Shape, ShapeType};
use niri_shot::tools::ToolType;

fn rect(sx: i64, sy: i64, ex: i64, ey: i64) -> Shape {
    let mut s = Shape::default();
    s.shape_type = ShapeType::Rectangle;
    s.start_x = sx;
    s.start_y = sy;
    s.end_x = ex;
    s.end_y = ey;
    s
}

#[test]
fn rectangle_becomes_one_normalised_rect_command() {
    let s = rect(50, 40, 10, 10);
    let ops = shape_ops(&s, 0, 0);
    assert_eq!(
        ops,
        vec![RenderOp::Rect {
            x: 10,
            y: 10,
            w: 40,
            h: 30,
            color: Color::red(),
            stroke_width: 3,
            filled: false,
        }]
    );
}

#[test]
fn live_move_offset_brackets_the_shape() {
    let s = rect(0, 0, 10, 10);
    let ops = shape_ops(&s, 7, 3);
    assert_eq!(ops.len(), 3);
    assert_eq!(ops[0], RenderOp::Translated { dx: 7, dy: 3 });
    assert_eq!(ops[2], RenderOp::Restore);
}

#[test]
fn rotation_brackets_the_shape_about_its_centre() {
    let mut s = rect(10, 10, 50, 40);
    s.rotation = 500000;
    let ops = shape_ops(&s, 0, 0);
    assert_eq!(ops.len(), 3);
    assert_eq!(
        ops[0],
        RenderOp::Rotated { center_x2: 60, center_y2: 50, rotation: 500000 }
    );
    assert_eq!(ops[2], RenderOp::Restore);
    // A tiny rotation (a milliradian or less) is ignored.
    s.rotation = 1000;
    assert_eq!(shape_ops(&s, 0, 0).len(), 1);
}

#[test]
fn degenerate_ellipse_and_empty_text_draw_nothing() {
    let mut e = Shape::default();
    e.shape_type = ShapeType::Ellipse;
    assert!(shape_ops(&e, 0, 0).is_empty());
    let mut t = Shape::default();
    t.shape_type = ShapeType::Text;
    assert!(shape_ops(&t, 0, 0).is_empty());
}

#[test]
fn arrow_keeps_its_direction() {
    let mut s = Shape::default();
    s.shape_type = ShapeType::Arrow;
    s.end_x = 30;
    s.end_y = 40;
    let ops = shape_ops(&s, 0, 0);
    assert_eq!(
        ops,
        vec![RenderOp::Arrow {
            x1: 0,
            y1: 0,
            x2: 30,
            y2: 40,
            color: Color::red(),
            stroke_width: 3,
        }]
    );
}

#[test]
fn blur_blocks_tile_the_box_with_trimmed_edges() {
    let blocks = blur_blocks(0, 0, 25, 15);
    // Two rows and three columns: one per started ten units.
    assert_eq!(blocks.len(), 6);
    assert_eq!(blocks[0], BlurBlock { x: 0, y: 0, w: 10, h: 10, dark: true });
    assert_eq!(blocks[1], BlurBlock { x: 10, y: 0, w: 10, h: 10, dark: false });
    assert_eq!(blocks[2], BlurBlock { x: 20, y: 0, w: 5, h: 10, dark: true });
    assert_eq!(blocks[3], BlurBlock { x: 0, y: 10, w: 10, h: 5, dark: false });
    assert_eq!(blocks[4], BlurBlock { x: 10, y: 10, w: 10, h: 5, dark: true });
    assert_eq!(blocks[5], BlurBlock { x: 20, y: 10, w: 5, h: 5, dark: false });
}

#[test]
fn draw_ops_adorn_the_selection_and_preview_the_move() {
    let mut e = EditorCanvas::new();
    e.set_tool_type(ToolType::Rectangle);
    e.on_press(10, 10, 10, 10);
    e.on_release(50, 40);
    e.set_tool_type(ToolType::Select);
    e.on_press(30, 25, 30, 25);
    e.on_drag_begin(30, 25);
    e.on_drag_update(5, 5);
    let ops = draw_ops(&e);
    // Translate bracket, the rectangle, restore, then the handles at the
    // live offset.
    assert_eq!(ops.len(), 4);
    assert_eq!(ops[0], RenderOp::Translated { dx: 5, dy: 5 });
    assert_eq!(
        ops[3],
        RenderOp::Handles { min_x: 15, min_y: 15, max_x: 55, max_y: 45, rotation: 0 }
    );
}

#[test]
fn draw_ops_show_the_in_progress_shape_and_caret() {
    let mut e = EditorCanvas::new();
    e.set_tool_type(ToolType::Rectangle);
    e.on_press(0, 0, 0, 0);
    e.on_motion(20, 20);
    let ops = draw_ops(&e);
    assert_eq!(ops.len(), 1);
    assert!(matches!(ops[0], RenderOp::Rect { w: 20, h: 20, .. }));
    let mut t = EditorCanvas::new();
    t.set_tool_type(ToolType::Text);
    t.on_press(5, 6, 5, 6);
    let ops = draw_ops(&t);
    assert_eq!(ops.len(), 1);
    assert!(matches!(ops[0], RenderOp::TextCursor { x: 5, y: 6, .. }));
}

#[test]
fn export_ops_flatten_only_committed_shapes() {
    let mut e = EditorCanvas::new();
    e.set_tool_type(ToolType::Rectangle);
    e.on_press(10, 10, 10, 10);
    e.on_release(50, 40);
    e.set_tool_type(ToolType::Select);
    e.on_press(30, 25, 30, 25);
    let screen = draw_ops(&e);
    let export = export_ops(&e);
    // The selection adornment appears on screen but never in the export.
    assert_eq!(screen.len(), 2);
    assert_eq!(export.len(), 1);
    assert!(matches!(export[0], RenderOp::Rect { .. }));
}
