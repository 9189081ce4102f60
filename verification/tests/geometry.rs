use niri_shot::geom::CANVAS_LIMIT;
use niri_shot::shapes::{Color, Shape, ShapeType};

fn rect(sx: i64, sy: i64, ex: i64, ey: i64) -> Shape {
    let mut s = Shape::default();
    s.shape_type = ShapeType::Rectangle;
    s.start_x = sx;
    s.start_y = sy;
    s.end_x = ex;
    s.end_y = ey;
    s
}

#[test]
fn rectangle_contains_inside_and_not_far_away() {
    let s = rect(10, 10, 50, 40);
    assert!(s.contains_point(30, 25));
    assert!(!s.contains_point(200, 200));
}

#[test]
fn rectangle_contains_within_tolerance_band() {
    // Stroke width 3 gives the minimum tolerance of 5.
    let s = rect(10, 10, 50, 40);
    assert!(s.contains_point(5, 10));
    assert!(!s.contains_point(4, 10));
    assert!(s.contains_point(55, 45));
}

#[test]
fn line_contains_near_segment_and_not_far() {
    let mut s = Shape::default();
    s.shape_type = ShapeType::Line;
    s.start_x = 0;
    s.start_y = 0;
    s.end_x = 10;
    s.end_y = 0;
    s.stroke_width = 2;
    // Tolerance is max(stroke_width, 5) = 5.
    assert!(s.contains_point(5, 1));
    assert!(!s.contains_point(5, 20));
}

#[test]
fn line_endpoint_regions_use_point_distance() {
    let mut s = Shape::default();
    s.shape_type = ShapeType::Line;
    s.start_x = 0;
    s.start_y = 0;
    s.end_x = 10;
    s.end_y = 0;
    s.stroke_width = 1;
    assert!(s.contains_point(-3, 0));
    assert!(!s.contains_point(-6, 0));
    assert!(s.contains_point(13, 4));
    assert!(!s.contains_point(14, 4));
}

#[test]
fn zero_length_line_degenerates_to_point_distance() {
    let mut s = Shape::default();
    s.shape_type = ShapeType::Line;
    s.start_x = 7;
    s.start_y = 7;
    s.end_x = 7;
    s.end_y = 7;
    assert!(s.contains_point(10, 7));
    assert!(!s.contains_point(13, 7));
}

#[test]
fn ellipse_contains_center_and_not_outside() {
    let mut s = Shape::default();
    s.shape_type = ShapeType::Ellipse;
    s.start_x = 0;
    s.start_y = 0;
    s.end_x = 20;
    s.end_y = 20;
    assert!(s.contains_point(10, 10));
    // Radius is 10 + tolerance 5; x = 26 is past it on the axis.
    assert!(s.contains_point(25, 10));
    assert!(!s.contains_point(26, 10));
}

#[test]
fn freehand_contains_near_sampled_point_only() {
    let mut s = Shape::default();
    s.shape_type = ShapeType::FreeHand;
    s.points = vec![(0, 0), (100, 0)];
    assert!(s.contains_point(3, 4));
    // The midpoint of the polyline is far from both sampled points.
    assert!(!s.contains_point(50, 0));
}

#[test]
fn text_bounds_use_fixed_advance_width() {
    let mut s = Shape::default();
    s.shape_type = ShapeType::Text;
    s.start_x = 10;
    s.start_y = 20;
    s.text = vec!['a', 'b', 'c'];
    s.font_size = 20;
    // Width is 3 chars * 20 * 3/5 = 36; height is the font size.
    assert_eq!(s.bounds(), (10, 20, 46, 40));
    // The hit box extends one extra font size below.
    assert!(s.contains_point(30, 55));
    assert!(!s.contains_point(30, 61));
}

#[test]
fn freehand_bounds_span_points_and_empty_degenerates_to_anchor() {
    let mut s = Shape::default();
    s.shape_type = ShapeType::FreeHand;
    s.start_x = 5;
    s.start_y = 6;
    assert_eq!(s.bounds(), (5, 6, 5, 6));
    s.points = vec![(3, 9), (-2, 4), (7, 1)];
    assert_eq!(s.bounds(), (-2, 1, 7, 9));
}

#[test]
fn translate_round_trip_restores_bounds_exactly() {
    let mut s = rect(10, 10, 50, 40);
    let before = s.bounds();
    s.translate(123, -456);
    s.translate(-123, 456);
    assert_eq!(s.bounds(), before);
}

#[test]
fn translate_round_trip_restores_freehand_points() {
    let mut s = Shape::default();
    s.shape_type = ShapeType::FreeHand;
    s.points = vec![(1, 2), (3, 4)];
    s.translate(10, 20);
    assert_eq!(s.points, vec![(11, 22), (13, 24)]);
    s.translate(-10, -20);
    assert_eq!(s.points, vec![(1, 2), (3, 4)]);
}

#[test]
fn resize_rect_corners_move_their_edges() {
    let mut s = rect(10, 10, 50, 40);
    s.resize_corner(0, 0, 5);
    assert_eq!((s.start_x, s.start_y, s.end_x, s.end_y), (0, 5, 50, 40));
    let mut s = rect(10, 10, 50, 40);
    s.resize_corner(1, 60, 5);
    assert_eq!((s.start_x, s.start_y, s.end_x, s.end_y), (10, 5, 60, 40));
    let mut s = rect(10, 10, 50, 40);
    s.resize_corner(2, 0, 60);
    assert_eq!((s.start_x, s.start_y, s.end_x, s.end_y), (0, 10, 50, 60));
    let mut s = rect(10, 10, 50, 40);
    s.resize_corner(3, 60, 70);
    assert_eq!((s.start_x, s.start_y, s.end_x, s.end_y), (10, 10, 60, 70));
}

#[test]
fn resize_line_moves_one_endpoint() {
    let mut s = Shape::default();
    s.shape_type = ShapeType::Line;
    s.end_x = 10;
    s.end_y = 10;
    s.resize_corner(2, -5, -5);
    assert_eq!((s.start_x, s.start_y), (-5, -5));
    assert_eq!((s.end_x, s.end_y), (10, 10));
    s.resize_corner(1, 20, 30);
    assert_eq!((s.end_x, s.end_y), (20, 30));
}

#[test]
fn resize_freehand_preserves_point_count() {
    let mut s = Shape::default();
    s.shape_type = ShapeType::FreeHand;
    s.points = vec![(0, 0), (4, 2), (10, 10), (7, 3), (2, 9)];
    s.resize_corner(3, 37, 21);
    assert_eq!(s.points.len(), 5);
}

#[test]
fn resize_freehand_rescales_points_proportionally() {
    let mut s = Shape::default();
    s.shape_type = ShapeType::FreeHand;
    s.points = vec![(0, 0), (5, 5), (10, 10)];
    // Old box is 10 by 10; dragging the bottom-right corner to (20, 20)
    // doubles both extents.
    s.resize_corner(3, 20, 20);
    assert_eq!(s.points, vec![(0, 0), (10, 10), (20, 20)]);
    assert_eq!((s.start_x, s.start_y, s.end_x, s.end_y), (0, 0, 20, 20));
}

#[test]
fn resize_text_scales_font_by_height_ratio() {
    let mut s = Shape::default();
    s.shape_type = ShapeType::Text;
    s.text = vec!['x'];
    s.font_size = 20;
    s.start_x = 0;
    s.start_y = 0;
    // Box height equals the font size (20); dragging the bottom edge to 30
    // scales the font by 30/20.
    s.resize_corner(3, 0, 30);
    assert_eq!(s.font_size, 30);
}

#[test]
fn resize_text_clamps_font_size() {
    let mut s = Shape::default();
    s.shape_type = ShapeType::Text;
    s.text = vec!['x'];
    s.font_size = 20;
    // A collapse to nothing clamps the ratio to one half, then the font to
    // its floor of 8 only if half the font is below it; half of 20 is 10.
    s.resize_corner(3, 0, -100);
    assert_eq!(s.font_size, 10);
    s.resize_corner(3, 0, -100);
    assert_eq!(s.font_size, 8);
    // A huge stretch clamps the ratio to five and the font to 100.
    let mut s2 = Shape::default();
    s2.shape_type = ShapeType::Text;
    s2.text = vec!['x'];
    s2.font_size = 40;
    s2.resize_corner(3, 0, 100000);
    assert_eq!(s2.font_size, 100);
}

#[test]
fn resize_text_top_corner_moves_anchor() {
    let mut s = Shape::default();
    s.shape_type = ShapeType::Text;
    s.text = vec!['x'];
    s.start_x = 10;
    s.start_y = 10;
    s.resize_corner(0, 3, 4);
    assert_eq!((s.start_x, s.start_y), (3, 4));
    let mut s2 = Shape::default();
    s2.shape_type = ShapeType::Text;
    s2.text = vec!['x'];
    s2.start_x = 10;
    s2.start_y = 10;
    s2.resize_corner(2, 3, 40);
    assert_eq!((s2.start_x, s2.start_y), (3, 10));
}

#[test]
fn color_constants_are_thousandths() {
    let c = Color::green();
    assert_eq!((c.r, c.g, c.b, c.a), (0, 800, 0, 1000));
    let c = Color::new(10, 20, 30, 40);
    assert_eq!((c.r, c.g, c.b, c.a), (10, 20, 30, 40));
}

#[test]
fn translate_saturates_at_the_canvas_limit() {
    let mut s = rect(0, 0, 10, 10);
    s.translate(CANVAS_LIMIT + 5, 0);
    // Every coordinate stops at the limit instead of wrapping.
    assert_eq!(s.start_x, CANVAS_LIMIT);
    assert_eq!(s.end_x, CANVAS_LIMIT);
    // A saturated move is the one case a translate round trip cannot undo.
    s.translate(-(CANVAS_LIMIT + 5), 0);
    assert_eq!(s.start_x, -5);
}
