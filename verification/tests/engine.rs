use niri_shot::canvas::{EditorCanvas, HandleType, KeyInput};
use niri_shot::shapes::ShapeType;
use niri_shot::tools::ToolType;

fn png_header(w: u32, h: u32) -> Vec<u8> {
    let mut d = vec![137u8, 80, 78, 71, 13, 10, 26, 10];
    d.extend_from_slice(&[0, 0, 0, 13]);
    d.extend_from_slice(&[73, 72, 68, 82]);
    d.extend_from_slice(&w.to_be_bytes());
    d.extend_from_slice(&h.to_be_bytes());
    d
}

fn draw_rect(e: &mut EditorCanvas, sx: i64, sy: i64, ex: i64, ey: i64) {
    e.set_tool_type(ToolType::Rectangle);
    e.on_press(sx, sy, sx, sy);
    e.on_motion((sx + ex) / 2, (sy + ey) / 2);
    e.on_release(ex, ey);
}

#[test]
fn drawing_a_rectangle_commits_it_on_release() {
    let mut e = EditorCanvas::new();
    draw_rect(&mut e, 10, 10, 50, 40);
    assert_eq!(e.store.committed.len(), 1);
    let s = e.store.shape_at(0);
    assert_eq!(s.shape_type, ShapeType::Rectangle);
    assert_eq!((s.start_x, s.start_y, s.end_x, s.end_y), (10, 10, 50, 40));
    assert_eq!(e.store.redo.len(), 0);
    assert!(e.current_shape.is_none());
}

#[test]
fn freehand_collects_points_while_drawing() {
    let mut e = EditorCanvas::new();
    e.set_tool_type(ToolType::FreeHand);
    e.on_press(0, 0, 0, 0);
    e.on_motion(1, 1);
    e.on_motion(2, 3);
    e.on_release(4, 4);
    let s = e.store.shape_at(0);
    assert_eq!(s.shape_type, ShapeType::FreeHand);
    assert_eq!(s.points, vec![(0, 0), (1, 1), (2, 3)]);
    assert_eq!((s.end_x, s.end_y), (4, 4));
}

#[test]
fn starting_a_new_shape_discards_redo_history() {
    let mut e = EditorCanvas::new();
    draw_rect(&mut e, 0, 0, 10, 10);
    e.undo();
    assert_eq!(e.store.redo.len(), 1);
    e.set_tool_type(ToolType::Line);
    e.on_press(0, 0, 0, 0);
    assert_eq!(e.store.redo.len(), 0);
    e.on_release(5, 5);
}

#[test]
fn select_tool_picks_topmost_shape() {
    let mut e = EditorCanvas::new();
    draw_rect(&mut e, 0, 0, 100, 100);
    draw_rect(&mut e, 20, 20, 80, 80);
    e.set_tool_type(ToolType::Select);
    e.on_press(50, 50, 50, 50);
    assert_eq!(e.selected_index, Some(1));
    // A press far from everything clears the selection.
    e.on_press(400, 400, 400, 400);
    assert_eq!(e.selected_index, None);
}

#[test]
fn moving_a_selected_shape_commits_on_drag_end() {
    let mut e = EditorCanvas::new();
    draw_rect(&mut e, 10, 10, 50, 40);
    e.set_tool_type(ToolType::Select);
    e.on_press(30, 25, 30, 25);
    assert_eq!(e.selected_index, Some(0));
    e.on_drag_begin(30, 25);
    let q = e.on_drag_update(7, 3);
    assert!(q.is_none());
    // The live offset is only a preview; the shape is untouched so far.
    assert_eq!(e.store.shape_at(0).start_x, 10);
    assert_eq!((e.drag_offset_x, e.drag_offset_y), (7, 3));
    e.on_drag_end(7, 3);
    let s = e.store.shape_at(0);
    assert_eq!((s.start_x, s.start_y, s.end_x, s.end_y), (17, 13, 57, 43));
    assert!(!e.dragging);
}

#[test]
fn corner_drag_resizes_live_and_undo_removes_whole_shape() {
    let mut e = EditorCanvas::new();
    draw_rect(&mut e, 10, 10, 50, 40);
    e.set_tool_type(ToolType::Select);
    e.on_press(30, 25, 30, 25);
    assert_eq!(e.selected_index, Some(0));
    // Grab the top-left corner handle and drag it by (10, 5).
    e.on_press(10, 10, 10, 10);
    assert_eq!(e.active_handle, HandleType::TopLeft);
    let q = e.on_drag_update(10, 5);
    assert!(q.is_none());
    // The resize is applied immediately, with no undo checkpoint.
    assert_eq!(e.store.shape_at(0).start_x, 20);
    assert_eq!(e.store.shape_at(0).start_y, 15);
    e.on_drag_end(10, 5);
    // No translation happens on top of a handle drag.
    assert_eq!(e.store.shape_at(0).start_x, 20);
    // Undo removes the shape as a whole: the resize itself was never
    // history-tracked, so the redo buffer receives the resized geometry.
    e.undo();
    assert_eq!(e.store.committed.len(), 0);
    assert_eq!(e.store.redo.len(), 1);
    assert_eq!(e.store.redo[0].start_x, 20);
    assert_eq!(e.store.redo[0].start_y, 15);
}

#[test]
fn rotation_handle_asks_host_for_the_angle() {
    let mut e = EditorCanvas::new();
    draw_rect(&mut e, 10, 10, 50, 40);
    e.set_tool_type(ToolType::Select);
    e.on_press(30, 25, 30, 25);
    // The rotation knob sits 25 units above the top edge, at the centre.
    e.on_press(30, -15, 30, -15);
    assert_eq!(e.active_handle, HandleType::Rotation);
    let q = e.on_drag_update(0, 0).expect("a rotation drag asks for an angle");
    assert_eq!((q.center_x2, q.center_y2), (60, 50));
    assert_eq!((q.x, q.y), (30, -15));
    e.apply_rotation(314159);
    assert_eq!(e.store.shape_at(0).rotation, 314159);
}

#[test]
fn text_session_commits_buffer_on_enter() {
    let mut e = EditorCanvas::new();
    e.set_tool_type(ToolType::Text);
    e.on_press(5, 6, 5, 6);
    assert!(e.text_input_active);
    assert!(e.on_key(KeyInput::Character('h')));
    assert!(e.on_key(KeyInput::Character('i')));
    assert!(e.on_key(KeyInput::Enter));
    assert!(!e.text_input_active);
    assert_eq!(e.store.committed.len(), 1);
    let s = e.store.shape_at(0);
    assert_eq!(s.shape_type, ShapeType::Text);
    assert_eq!((s.start_x, s.start_y), (5, 6));
    assert_eq!(s.text, vec!['h', 'i']);
}

#[test]
fn empty_text_commit_creates_no_shape() {
    let mut e = EditorCanvas::new();
    e.set_tool_type(ToolType::Text);
    e.on_press(5, 6, 5, 6);
    assert!(e.on_key(KeyInput::Enter));
    assert_eq!(e.store.committed.len(), 0);
    assert!(!e.text_input_active);
}

#[test]
fn escape_discards_the_text_session() {
    let mut e = EditorCanvas::new();
    e.set_tool_type(ToolType::Text);
    e.on_press(5, 6, 5, 6);
    e.on_key(KeyInput::Character('x'));
    e.on_key(KeyInput::Escape);
    assert_eq!(e.store.committed.len(), 0);
    assert!(!e.text_input_active);
    assert!(e.text_input_buffer.is_empty());
}

#[test]
fn backspace_and_control_characters_edit_the_buffer() {
    let mut e = EditorCanvas::new();
    e.set_tool_type(ToolType::Text);
    e.on_press(0, 0, 0, 0);
    e.on_key(KeyInput::Character('a'));
    e.on_key(KeyInput::Character('\u{7}'));
    e.on_key(KeyInput::Character('b'));
    e.on_key(KeyInput::Backspace);
    assert_eq!(e.text_input_buffer, vec!['a']);
}

#[test]
fn keys_outside_a_text_session_are_not_handled() {
    let mut e = EditorCanvas::new();
    assert!(!e.on_key(KeyInput::Character('z')));
}

#[test]
fn pressing_elsewhere_commits_and_reopens_the_text_session() {
    let mut e = EditorCanvas::new();
    e.set_tool_type(ToolType::Text);
    e.on_press(5, 6, 5, 6);
    e.on_key(KeyInput::Character('q'));
    e.on_press(50, 60, 50, 60);
    assert_eq!(e.store.committed.len(), 1);
    assert_eq!(e.store.shape_at(0).text, vec!['q']);
    // The click also anchors a fresh, empty session.
    assert!(e.text_input_active);
    assert_eq!(e.text_input_pos, Some((50, 60)));
    assert!(e.text_input_buffer.is_empty());
}

#[test]
fn switching_tools_commits_text_and_clears_selection() {
    let mut e = EditorCanvas::new();
    draw_rect(&mut e, 0, 0, 50, 50);
    e.set_tool_type(ToolType::Select);
    e.on_press(25, 25, 25, 25);
    assert_eq!(e.selected_index, Some(0));
    e.set_tool_type(ToolType::Line);
    assert_eq!(e.selected_index, None);
}

#[test]
fn delete_selected_moves_shape_to_redo() {
    let mut e = EditorCanvas::new();
    draw_rect(&mut e, 0, 0, 50, 50);
    e.set_tool_type(ToolType::Select);
    e.on_press(25, 25, 25, 25);
    e.delete_selected();
    assert_eq!(e.store.committed.len(), 0);
    assert_eq!(e.store.redo.len(), 1);
    assert_eq!(e.selected_index, None);
    // Deleting with no selection is a no-op.
    e.delete_selected();
    assert_eq!(e.store.redo.len(), 1);
}

#[test]
fn clear_shapes_batches_everything_into_redo() {
    let mut e = EditorCanvas::new();
    draw_rect(&mut e, 0, 0, 10, 10);
    draw_rect(&mut e, 20, 20, 30, 30);
    e.clear_shapes();
    assert_eq!(e.store.committed.len(), 0);
    assert_eq!(e.store.redo.len(), 2);
    assert_eq!(e.store.redo[0].start_x, 0);
    assert_eq!(e.store.redo[1].start_x, 20);
}

#[test]
fn set_image_resets_shapes_and_stores_dimensions() {
    let mut e = EditorCanvas::new();
    draw_rect(&mut e, 0, 0, 10, 10);
    e.undo();
    e.set_image(&png_header(256, 200));
    assert!(e.has_image);
    assert_eq!((e.image_width, e.image_height), (256, 200));
    assert_eq!(e.store.committed.len(), 0);
    assert_eq!(e.store.redo.len(), 0);
    assert_eq!(e.selected_index, None);
}

#[test]
fn malformed_image_bytes_leave_state_untouched() {
    let mut e = EditorCanvas::new();
    draw_rect(&mut e, 0, 0, 10, 10);
    e.set_image(&[1, 2, 3, 4]);
    assert!(!e.has_image);
    assert_eq!(e.store.committed.len(), 1);
    let mut bad = png_header(256, 200);
    bad[0] = 0;
    e.set_image(&bad);
    assert!(!e.has_image);
}

#[test]
fn undo_clears_selection_but_redo_keeps_it() {
    let mut e = EditorCanvas::new();
    draw_rect(&mut e, 0, 0, 50, 50);
    e.set_tool_type(ToolType::Select);
    e.on_press(25, 25, 25, 25);
    assert_eq!(e.selected_index, Some(0));
    e.undo();
    assert_eq!(e.selected_index, None);
    e.redo();
    assert_eq!(e.store.committed.len(), 1);
}

#[test]
fn pan_session_tracks_anchor() {
    let mut e = EditorCanvas::new();
    assert!(!e.is_panning());
    e.pan_begin(100, 200);
    assert!(e.is_panning());
    assert_eq!((e.pan_start_x, e.pan_start_y), (100, 200));
    e.pan_end();
    assert!(!e.is_panning());
}

#[test]
fn pan_adjust_clamps_to_the_scroll_range() {
    assert_eq!(niri_shot::canvas::pan_adjust(50, 30, 0, 200, 100), 80);
    assert_eq!(niri_shot::canvas::pan_adjust(50, 100, 0, 200, 100), 100);
    assert_eq!(niri_shot::canvas::pan_adjust(50, -100, 0, 200, 100), 0);
}

#[test]
fn device_drag_offsets_are_divided_by_the_zoom() {
    let mut e = EditorCanvas::new();
    draw_rect(&mut e, 10, 10, 50, 40);
    e.zoom_in();
    e.set_tool_type(ToolType::Select);
    e.on_press(30, 25, 30, 25);
    e.on_drag_begin(30, 25);
    // At a zoom of five quarters, 10 device pixels are 8 canvas units.
    e.on_drag_update(10, 10);
    assert_eq!((e.drag_offset_x, e.drag_offset_y), (8, 8));
    e.on_drag_end(10, 10);
    assert_eq!(e.store.shape_at(0).start_x, 18);
}

#[test]
fn motion_without_drawing_changes_nothing() {
    let mut e = EditorCanvas::new();
    draw_rect(&mut e, 0, 0, 10, 10);
    e.on_motion(500, 500);
    assert_eq!(e.store.shape_at(0).end_x, 10);
    assert!(e.current_shape.is_none());
}

#[test]
fn drag_updates_without_a_selection_do_nothing() {
    let mut e = EditorCanvas::new();
    draw_rect(&mut e, 0, 0, 10, 10);
    e.set_tool_type(ToolType::Select);
    assert!(e.on_drag_update(5, 5).is_none());
    assert_eq!((e.drag_offset_x, e.drag_offset_y), (0, 0));
    assert_eq!(e.store.shape_at(0).start_x, 0);
}
