use niri_shot::shapes::{Shape, ShapeType};
use niri_shot::store::ShapeStore;

fn shape_with_x(x: i64) -> Shape {
    let mut s = Shape::default();
    s.start_x = x;
    s
}

#[test]
fn push_then_undo_restores_and_stacks_redo() {
    let mut st = ShapeStore::new();
    st.push(shape_with_x(1));
    st.push(shape_with_x(2));
    st.push(shape_with_x(3));
    assert_eq!(st.len(), 3);
    let moved = st.pop_undo();
    assert!(moved);
    assert_eq!(st.len(), 2);
    assert_eq!(st.redo_len(), 1);
    assert_eq!(st.shape_at(0).start_x, 1);
    assert_eq!(st.shape_at(1).start_x, 2);
    assert_eq!(st.redo[0].start_x, 3);
    let moved = st.pop_redo();
    assert!(moved);
    assert_eq!(st.len(), 3);
    assert_eq!(st.redo_len(), 0);
    assert_eq!(st.shape_at(2).start_x, 3);
}

#[test]
fn push_always_empties_redo() {
    let mut st = ShapeStore::new();
    st.push(shape_with_x(1));
    st.push(shape_with_x(2));
    st.pop_undo();
    st.pop_undo();
    assert_eq!(st.redo_len(), 2);
    st.push(shape_with_x(9));
    assert_eq!(st.redo_len(), 0);
    assert_eq!(st.len(), 1);
    assert_eq!(st.shape_at(0).start_x, 9);
}

#[test]
fn undo_on_empty_store_is_a_no_op() {
    let mut st = ShapeStore::new();
    assert!(!st.pop_undo());
    assert_eq!(st.len(), 0);
    assert_eq!(st.redo_len(), 0);
}

#[test]
fn redo_on_empty_buffer_is_a_no_op() {
    let mut st = ShapeStore::new();
    st.push(shape_with_x(1));
    assert!(!st.pop_redo());
    assert_eq!(st.len(), 1);
}

#[test]
fn remove_pushes_to_redo_without_clearing_it() {
    let mut st = ShapeStore::new();
    st.push(shape_with_x(1));
    st.push(shape_with_x(2));
    st.push(shape_with_x(3));
    st.pop_undo();
    assert_eq!(st.redo_len(), 1);
    st.remove(0);
    assert_eq!(st.len(), 1);
    assert_eq!(st.shape_at(0).start_x, 2);
    assert_eq!(st.redo_len(), 2);
    assert_eq!(st.redo[0].start_x, 3);
    assert_eq!(st.redo[1].start_x, 1);
}

#[test]
fn clear_moves_all_committed_in_order() {
    let mut st = ShapeStore::new();
    st.push(shape_with_x(1));
    st.push(shape_with_x(2));
    st.pop_undo();
    st.clear();
    assert_eq!(st.len(), 0);
    assert_eq!(st.redo_len(), 2);
    assert_eq!(st.redo[0].start_x, 2);
    assert_eq!(st.redo[1].start_x, 1);
}

#[test]
fn translate_shape_moves_only_that_shape() {
    let mut st = ShapeStore::new();
    st.push(shape_with_x(1));
    st.push(shape_with_x(2));
    st.translate_shape(1, 10, 20);
    assert_eq!(st.shape_at(0).start_x, 1);
    assert_eq!(st.shape_at(1).start_x, 12);
    assert_eq!(st.shape_at(1).start_y, 20);
}

#[test]
fn resize_shape_updates_in_place() {
    let mut st = ShapeStore::new();
    let mut s = Shape::default();
    s.shape_type = ShapeType::Rectangle;
    s.end_x = 10;
    s.end_y = 10;
    st.push(s);
    st.resize_shape(0, 3, 25, 35);
    assert_eq!(st.shape_at(0).end_x, 25);
    assert_eq!(st.shape_at(0).end_y, 35);
    // The resize left the redo buffer alone and added no history entry.
    assert_eq!(st.len(), 1);
    assert_eq!(st.redo_len(), 0);
}
