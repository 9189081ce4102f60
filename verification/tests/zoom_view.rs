use niri_shot::canvas::EditorCanvas;
use niri_shot::zoom::ZoomLevel;

fn png_header(w: u32, h: u32) -> Vec<u8> {
    let mut d = vec![137u8, 80, 78, 71, 13, 10, 26, 10];
    d.extend_from_slice(&[0, 0, 0, 13]);
    d.extend_from_slice(&[73, 72, 68, 82]);
    d.extend_from_slice(&w.to_be_bytes());
    d.extend_from_slice(&h.to_be_bytes());
    d
}

#[test]
fn six_zoom_ins_give_exactly_the_sixth_power_of_five_quarters() {
    let mut e = EditorCanvas::new();
    for _ in 0..6 {
        e.zoom_in();
    }
    // 1.25^6 = 15625 / 4096 = 3.814697265625, still below the cap of 5.
    assert_eq!(e.get_zoom(), (15625, 4096));
}

#[test]
fn zoom_clamps_at_five() {
    let mut e = EditorCanvas::new();
    for _ in 0..8 {
        e.zoom_in();
    }
    assert_eq!(e.get_zoom(), (5, 1));
    e.zoom_in();
    assert_eq!(e.get_zoom(), (5, 1));
}

#[test]
fn zoom_clamps_at_one_tenth() {
    let mut e = EditorCanvas::new();
    for _ in 0..10 {
        e.zoom_out();
    }
    // 1.25^-10 is still above one tenth...
    assert_eq!(e.get_zoom(), (1048576, 9765625));
    e.zoom_out();
    // ...but the next step would fall below it, so the floor is taken.
    assert_eq!(e.get_zoom(), (1, 10));
    e.zoom_out();
    assert_eq!(e.get_zoom(), (1, 10));
}

#[test]
fn zoom_never_leaves_its_range() {
    let mut e = EditorCanvas::new();
    for step in 0..60 {
        if step % 7 < 5 {
            e.zoom_out();
        } else {
            e.zoom_in();
        }
        let (num, den) = e.get_zoom();
        // One tenth <= num/den <= five, checked cross-multiplied.
        assert!(10 * num >= den);
        assert!(num <= 5 * den);
    }
}

#[test]
fn zoom_reset_returns_to_one() {
    let mut e = EditorCanvas::new();
    e.zoom_in();
    e.zoom_in();
    e.zoom_reset();
    assert_eq!(e.get_zoom(), (1, 1));
    assert_eq!(e.zoom, ZoomLevel::FromUnit(0));
}

#[test]
fn stepping_down_from_the_cap_walks_its_own_ladder() {
    let mut e = EditorCanvas::new();
    for _ in 0..9 {
        e.zoom_in();
    }
    e.zoom_out();
    // 5 * 4/5 = 4, a value only reachable from the cap.
    assert_eq!(e.get_zoom(), (20, 5));
}

#[test]
fn content_size_scales_the_image_by_the_zoom() {
    let mut e = EditorCanvas::new();
    e.set_image(&png_header(100, 50));
    assert_eq!(e.content_size(), (100, 50));
    e.zoom_in();
    // 100 * 5/4 = 125; 50 * 5/4 = 62.5, truncated.
    assert_eq!(e.content_size(), (125, 62));
    e.zoom_reset();
    e.zoom_out();
    assert_eq!(e.content_size(), (80, 40));
}

#[test]
fn screen_to_canvas_divides_by_the_zoom() {
    let mut e = EditorCanvas::new();
    assert_eq!(e.screen_to_canvas(100, -40), (100, -40));
    e.zoom_in();
    // Canvas = device * 4/5, truncated toward zero.
    assert_eq!(e.screen_to_canvas(100, -101), (80, -80));
    e.zoom_reset();
    e.zoom_out();
    // Canvas = device * 5/4.
    assert_eq!(e.screen_to_canvas(100, -100), (125, -125));
}
