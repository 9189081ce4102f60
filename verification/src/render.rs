//! The render plan: what the drawing surface is told to draw.
//!
//! The engine never talks to a rasteriser. It produces a sequence of plain
//! drawing commands in canvas space — the host replays them onto its 2D
//! context, applying the zoom scale first for on-screen drawing and nothing
//! for export. Rotation and live-move offsets appear as save/transform/
//! restore brackets around the affected shape's commands, exactly as the
//! shapes are stored.

use vstd::prelude::*;

use crate::canvas::{EditorCanvas, EditorView, HandleType};
use crate::geom::{event_coord, in_canvas, spec_max, spec_min, CANVAS_LIMIT};
use crate::shapes::{spec_bounds, Color, Shape, ShapeType, ShapeView};

verus! {

/// One drawing command, in canvas space. Colour channels are thousandths;
/// rotation angles are microradians about the (doubled) centre point;
/// doubled fields keep half-unit centres and radii exact. A `Blur` command
/// stands for the checkerboard that `blur_blocks` lays out; a `Highlight`
/// is filled with its colour at three tenths opacity; `Handles` stands for
/// the selection adornment around the given box.
#[derive(Clone, PartialEq, Debug)]
pub enum RenderOp {
    Translated { dx: i64, dy: i64 },
    Rotated { center_x2: i64, center_y2: i64, rotation: i64 },
    Restore,
    Rect { x: i64, y: i64, w: i64, h: i64, color: Color, stroke_width: i64, filled: bool },
    Ellipse {
        center_x2: i64,
        center_y2: i64,
        rx2: i64,
        ry2: i64,
        color: Color,
        stroke_width: i64,
        filled: bool,
    },
    Line { x1: i64, y1: i64, x2: i64, y2: i64, color: Color, stroke_width: i64 },
    Arrow { x1: i64, y1: i64, x2: i64, y2: i64, color: Color, stroke_width: i64 },
    Polyline { points: Vec<(i64, i64)>, color: Color, stroke_width: i64 },
    Text { x: i64, y: i64, text: Vec<char>, font_size: i64, color: Color },
    Blur { x: i64, y: i64, w: i64, h: i64 },
    Highlight { x: i64, y: i64, w: i64, h: i64, color: Color },
    Handles { min_x: i64, min_y: i64, max_x: i64, max_y: i64, rotation: i64 },
    TextCursor { x: i64, y: i64, text: Vec<char>, font_size: i64, color: Color },
}

/// The model of one drawing command, with sequences for the point and text
/// payloads and unbounded integers elsewhere.
#[verifier::ext_equal]
pub ghost enum RenderOpView {
    Translated { dx: int, dy: int },
    Rotated { center_x2: int, center_y2: int, rotation: int },
    Restore,
    Rect { x: int, y: int, w: int, h: int, color: Color, stroke_width: int, filled: bool },
    Ellipse {
        center_x2: int,
        center_y2: int,
        rx2: int,
        ry2: int,
        color: Color,
        stroke_width: int,
        filled: bool,
    },
    Line { x1: int, y1: int, x2: int, y2: int, color: Color, stroke_width: int },
    Arrow { x1: int, y1: int, x2: int, y2: int, color: Color, stroke_width: int },
    Polyline { points: Seq<(int, int)>, color: Color, stroke_width: int },
    Text { x: int, y: int, text: Seq<char>, font_size: int, color: Color },
    Blur { x: int, y: int, w: int, h: int },
    Highlight { x: int, y: int, w: int, h: int, color: Color },
    Handles { min_x: int, min_y: int, max_x: int, max_y: int, rotation: int },
    TextCursor { x: int, y: int, text: Seq<char>, font_size: int, color: Color },
}

impl View for RenderOp {
    type V = RenderOpView;

    open spec fn view(&self) -> RenderOpView {
        match self {
            RenderOp::Translated { dx, dy } => RenderOpView::Translated {
                dx: *dx as int,
                dy: *dy as int,
            },
            RenderOp::Rotated { center_x2, center_y2, rotation } => RenderOpView::Rotated {
                center_x2: *center_x2 as int,
                center_y2: *center_y2 as int,
                rotation: *rotation as int,
            },
            RenderOp::Restore => RenderOpView::Restore,
            RenderOp::Rect { x, y, w, h, color, stroke_width, filled } => RenderOpView::Rect {
                x: *x as int,
                y: *y as int,
                w: *w as int,
                h: *h as int,
                color: *color,
                stroke_width: *stroke_width as int,
                filled: *filled,
            },
            RenderOp::Ellipse { center_x2, center_y2, rx2, ry2, color, stroke_width, filled } => RenderOpView::Ellipse {
                center_x2: *center_x2 as int,
                center_y2: *center_y2 as int,
                rx2: *rx2 as int,
                ry2: *ry2 as int,
                color: *color,
                stroke_width: *stroke_width as int,
                filled: *filled,
            },
            RenderOp::Line { x1, y1, x2, y2, color, stroke_width } => RenderOpView::Line {
                x1: *x1 as int,
                y1: *y1 as int,
                x2: *x2 as int,
                y2: *y2 as int,
                color: *color,
                stroke_width: *stroke_width as int,
            },
            RenderOp::Arrow { x1, y1, x2, y2, color, stroke_width } => RenderOpView::Arrow {
                x1: *x1 as int,
                y1: *y1 as int,
                x2: *x2 as int,
                y2: *y2 as int,
                color: *color,
                stroke_width: *stroke_width as int,
            },
            RenderOp::Polyline { points, color, stroke_width } => RenderOpView::Polyline {
                points: crate::shapes::pts_view(points@),
                color: *color,
                stroke_width: *stroke_width as int,
            },
            RenderOp::Text { x, y, text, font_size, color } => RenderOpView::Text {
                x: *x as int,
                y: *y as int,
                text: text@,
                font_size: *font_size as int,
                color: *color,
            },
            RenderOp::Blur { x, y, w, h } => RenderOpView::Blur {
                x: *x as int,
                y: *y as int,
                w: *w as int,
                h: *h as int,
            },
            RenderOp::Highlight { x, y, w, h, color } => RenderOpView::Highlight {
                x: *x as int,
                y: *y as int,
                w: *w as int,
                h: *h as int,
                color: *color,
            },
            RenderOp::Handles { min_x, min_y, max_x, max_y, rotation } => RenderOpView::Handles {
                min_x: *min_x as int,
                min_y: *min_y as int,
                max_x: *max_x as int,
                max_y: *max_y as int,
                rotation: *rotation as int,
            },
            RenderOp::TextCursor { x, y, text, font_size, color } => RenderOpView::TextCursor {
                x: *x as int,
                y: *y as int,
                text: text@,
                font_size: *font_size as int,
                color: *color,
            },
        }
    }
}

pub open spec fn ops_view(v: Seq<RenderOp>) -> Seq<RenderOpView> {
    v.map_values(|op: RenderOp| op@)
}

/// A shape's rotation takes effect from one milliradian on.
pub open spec fn spec_has_rotation(s: ShapeView) -> bool {
    s.rotation > 1000 || s.rotation < -1000
}

/// The drawing commands for one shape's body, by kind: a box for
/// rectangle-like kinds, the inscribed ellipse when it has any extent, the
/// segment (with an arrowhead for arrows), the sampled polyline when it has
/// points, the text when it has characters, and the blur checkerboard when
/// the box is at least one unit each way.
pub open spec fn spec_shape_body(s: ShapeView) -> Seq<RenderOpView> {
    let x = spec_min(s.start_x, s.end_x);
    let y = spec_min(s.start_y, s.end_y);
    let w = spec_max(s.end_x - s.start_x, s.start_x - s.end_x);
    let h = spec_max(s.end_y - s.start_y, s.start_y - s.end_y);
    match s.shape_type {
        ShapeType::Rectangle => seq![
            RenderOpView::Rect {
                x,
                y,
                w,
                h,
                color: s.color,
                stroke_width: s.stroke_width,
                filled: s.filled,
            },
        ],
        ShapeType::Ellipse => if w > 0 && h > 0 {
            seq![
                RenderOpView::Ellipse {
                    center_x2: s.start_x + s.end_x,
                    center_y2: s.start_y + s.end_y,
                    rx2: w,
                    ry2: h,
                    color: s.color,
                    stroke_width: s.stroke_width,
                    filled: s.filled,
                },
            ]
        } else {
            Seq::empty()
        },
        ShapeType::Line => seq![
            RenderOpView::Line {
                x1: s.start_x,
                y1: s.start_y,
                x2: s.end_x,
                y2: s.end_y,
                color: s.color,
                stroke_width: s.stroke_width,
            },
        ],
        ShapeType::Arrow => seq![
            RenderOpView::Arrow {
                x1: s.start_x,
                y1: s.start_y,
                x2: s.end_x,
                y2: s.end_y,
                color: s.color,
                stroke_width: s.stroke_width,
            },
        ],
        ShapeType::FreeHand => if s.points.len() == 0 {
            Seq::empty()
        } else {
            seq![
                RenderOpView::Polyline {
                    points: s.points,
                    color: s.color,
                    stroke_width: s.stroke_width,
                },
            ]
        },
        ShapeType::Text => if s.text.len() == 0 {
            Seq::empty()
        } else {
            seq![
                RenderOpView::Text {
                    x: s.start_x,
                    y: s.start_y,
                    text: s.text,
                    font_size: s.font_size,
                    color: s.color,
                },
            ]
        },
        ShapeType::Blur => if w < 1 || h < 1 {
            Seq::empty()
        } else {
            seq![RenderOpView::Blur { x, y, w, h }]
        },
        ShapeType::Highlight => seq![RenderOpView::Highlight { x, y, w, h, color: s.color }],
    }
}

/// The drawing commands for one shape, drawn translated by `(dx, dy)`: the
/// body, inside a rotation bracket when the shape is rotated, inside a
/// translation bracket when the offset is nonzero.
pub open spec fn spec_shape_ops(s: ShapeView, dx: int, dy: int) -> Seq<RenderOpView> {
    let (mnx, mny, mxx, mxy) = spec_bounds(s);
    let body = spec_shape_body(s);
    let rotated = if spec_has_rotation(s) {
        seq![
            RenderOpView::Rotated {
                center_x2: mnx + mxx,
                center_y2: mny + mxy,
                rotation: s.rotation,
            },
        ] + body + seq![RenderOpView::Restore]
    } else {
        body
    };
    if dx != 0 || dy != 0 {
        seq![RenderOpView::Translated { dx, dy }] + rotated + seq![RenderOpView::Restore]
    } else {
        rotated
    }
}

fn copy_points(v: &Vec<(i64, i64)>) -> (r: Vec<(i64, i64)>)
    ensures
        r@ == v@,
{
    let mut r: Vec<(i64, i64)> = Vec::new();
    let n = v.len();
    let mut i: usize = 0;
    while i < n
        invariant
            n == v@.len(),
            i <= n,
            r@ =~= v@.take(i as int),
        decreases n - i,
    {
        r.push(v[i]);
        proof {
            assert(r@ =~= v@.take(i + 1));
        }
        i += 1;
    }
    proof {
        assert(v@.take(n as int) =~= v@);
    }
    r
}

fn copy_chars(v: &Vec<char>) -> (r: Vec<char>)
    ensures
        r@ == v@,
{
    let mut r: Vec<char> = Vec::new();
    let n = v.len();
    let mut i: usize = 0;
    while i < n
        invariant
            n == v@.len(),
            i <= n,
            r@ =~= v@.take(i as int),
        decreases n - i,
    {
        r.push(v[i]);
        proof {
            assert(r@ =~= v@.take(i + 1));
        }
        i += 1;
    }
    proof {
        assert(v@.take(n as int) =~= v@);
    }
    r
}

/// Produce the drawing commands for one shape, translated by `(dx, dy)`.
pub fn shape_ops(shape: &Shape, dx: i64, dy: i64) -> (r: Vec<RenderOp>)
    requires
        shape@.wf(),
        event_coord(dx as int),
        event_coord(dy as int),
    ensures
        ops_view(r@) == spec_shape_ops(shape@, dx as int, dy as int),
{
    let mut r: Vec<RenderOp> = Vec::new();
    if dx != 0 || dy != 0 {
        r.push(RenderOp::Translated { dx, dy });
    }
    let rotated = shape.rotation > 1000 || shape.rotation < -1000;
    if rotated {
        let (cx2, cy2) = shape.center_doubled();
        r.push(RenderOp::Rotated { center_x2: cx2, center_y2: cy2, rotation: shape.rotation });
    }
    let x = crate::geom::min_i64(shape.start_x, shape.end_x);
    let y = crate::geom::min_i64(shape.start_y, shape.end_y);
    let w = crate::geom::max_i64(shape.end_x - shape.start_x, shape.start_x - shape.end_x);
    let h = crate::geom::max_i64(shape.end_y - shape.start_y, shape.start_y - shape.end_y);
    match shape.shape_type {
        ShapeType::Rectangle => {
            r.push(RenderOp::Rect {
                x,
                y,
                w,
                h,
                color: shape.color,
                stroke_width: shape.stroke_width,
                filled: shape.filled,
            });
        },
        ShapeType::Ellipse => {
            if w > 0 && h > 0 {
                r.push(RenderOp::Ellipse {
                    center_x2: shape.start_x + shape.end_x,
                    center_y2: shape.start_y + shape.end_y,
                    rx2: w,
                    ry2: h,
                    color: shape.color,
                    stroke_width: shape.stroke_width,
                    filled: shape.filled,
                });
            }
        },
        ShapeType::Line => {
            r.push(RenderOp::Line {
                x1: shape.start_x,
                y1: shape.start_y,
                x2: shape.end_x,
                y2: shape.end_y,
                color: shape.color,
                stroke_width: shape.stroke_width,
            });
        },
        ShapeType::Arrow => {
            r.push(RenderOp::Arrow {
                x1: shape.start_x,
                y1: shape.start_y,
                x2: shape.end_x,
                y2: shape.end_y,
                color: shape.color,
                stroke_width: shape.stroke_width,
            });
        },
        ShapeType::FreeHand => {
            if shape.points.len() > 0 {
                r.push(RenderOp::Polyline {
                    points: copy_points(&shape.points),
                    color: shape.color,
                    stroke_width: shape.stroke_width,
                });
            }
        },
        ShapeType::Text => {
            if shape.text.len() > 0 {
                r.push(RenderOp::Text {
                    x: shape.start_x,
                    y: shape.start_y,
                    text: copy_chars(&shape.text),
                    font_size: shape.font_size,
                    color: shape.color,
                });
            }
        },
        ShapeType::Blur => {
            if w >= 1 && h >= 1 {
                r.push(RenderOp::Blur { x, y, w, h });
            }
        },
        ShapeType::Highlight => {
            r.push(RenderOp::Highlight { x, y, w, h, color: shape.color });
        },
    }
    if rotated {
        r.push(RenderOp::Restore);
    }
    if dx != 0 || dy != 0 {
        r.push(RenderOp::Restore);
    }
    proof {
        assert(ops_view(r@) =~= spec_shape_ops(shape@, dx as int, dy as int));
    }
    r
}

/// One block of the blur checkerboard: dark blocks alternate with lighter
/// ones; the blocks on the far edges are trimmed to the box.
#[derive(Clone, Copy, PartialEq, Eq, Structural, Debug)]
pub struct BlurBlock {
    pub x: i64,
    pub y: i64,
    pub w: i64,
    pub h: i64,
    pub dark: bool,
}

/// The checkerboard block at `(row, col)` for a blur box at `(x, y)` of
/// size `w` by `h`, in ten-unit blocks.
pub open spec fn spec_blur_block(x: int, y: int, w: int, h: int, row: int, col: int) -> BlurBlock {
    let bx = x + col * 10;
    let by = y + row * 10;
    BlurBlock {
        x: bx as i64,
        y: by as i64,
        w: spec_min(10, x + w - bx) as i64,
        h: spec_min(10, y + h - by) as i64,
        dark: (row + col) % 2 == 0,
    }
}

/// Lay out the blur checkerboard for a box: one row and column of ten-unit
/// blocks per started ten units, in row-major order, each block trimmed to
/// the box and alternating dark and light.
pub fn blur_blocks(x: i64, y: i64, w: i64, h: i64) -> (r: Vec<BlurBlock>)
    requires
        in_canvas(x as int),
        in_canvas(y as int),
        1 <= w <= 2 * CANVAS_LIMIT as int,
        1 <= h <= 2 * CANVAS_LIMIT as int,
    ensures
        ({
            let rows = h as int / 10 + 1;
            let cols = w as int / 10 + 1;
            &&& r@.len() == rows * cols
            &&& forall|row: int, col: int|
                0 <= row < rows && 0 <= col < cols ==> #[trigger] r@[row * cols + col]
                    == spec_blur_block(x as int, y as int, w as int, h as int, row, col)
        }),
{
    let rows: i64 = h / 10 + 1;
    let cols: i64 = w / 10 + 1;
    let mut r: Vec<BlurBlock> = Vec::new();
    let mut row: i64 = 0;
    while row < rows
        invariant
            rows == h as int / 10 + 1,
            cols == w as int / 10 + 1,
            1 <= w <= 2 * CANVAS_LIMIT as int,
            1 <= h <= 2 * CANVAS_LIMIT as int,
            in_canvas(x as int),
            in_canvas(y as int),
            0 <= row <= rows,
            r@.len() == row * cols,
            forall|rr: int, cc: int|
                0 <= rr < row && 0 <= cc < cols ==> #[trigger] r@[rr * cols + cc]
                    == spec_blur_block(x as int, y as int, w as int, h as int, rr, cc),
        decreases rows - row,
    {
        let mut col: i64 = 0;
        while col < cols
            invariant
                rows == h as int / 10 + 1,
                cols == w as int / 10 + 1,
                1 <= w <= 2 * CANVAS_LIMIT as int,
                1 <= h <= 2 * CANVAS_LIMIT as int,
                in_canvas(x as int),
                in_canvas(y as int),
                0 <= row < rows,
                0 <= col <= cols,
                r@.len() == row * cols + col,
                forall|rr: int, cc: int|
                    0 <= rr < row && 0 <= cc < cols ==> #[trigger] r@[rr * cols + cc]
                        == spec_blur_block(x as int, y as int, w as int, h as int, rr, cc),
                forall|cc: int|
                    0 <= cc < col ==> #[trigger] r@[row as int * (cols as int) + cc]
                        == spec_blur_block(x as int, y as int, w as int, h as int, row as int, cc),
            decreases cols - col,
        {
            proof {
                lemma_grid_bounds(h as int, w as int, row as int, col as int);
            }
            let bx: i64 = x + col * 10;
            let by: i64 = y + row * 10;
            let bw: i64 = crate::geom::min_i64(10, x + w - bx);
            let bh: i64 = crate::geom::min_i64(10, y + h - by);
            let dark = (row + col) % 2 == 0;
            r.push(BlurBlock { x: bx, y: by, w: bw, h: bh, dark });
            proof {
                let r0 = row as int;
                let c0 = cols as int;
                assert forall|rr: int, cc: int|
                    0 <= rr < r0 && 0 <= cc < c0 implies #[trigger] r@[rr * c0 + cc]
                    == spec_blur_block(x as int, y as int, w as int, h as int, rr, cc) by {
                    lemma_flat_index(rr, cc, r0, c0);
                }
            }
            col += 1;
        }
        proof {
            let r0 = row as int;
            let c0 = cols as int;
            assert((r0 + 1) * c0 == r0 * c0 + c0) by (nonlinear_arith);
            assert forall|rr: int, cc: int|
                0 <= rr < r0 + 1 && 0 <= cc < c0 implies #[trigger] r@[rr * c0 + cc]
                == spec_blur_block(x as int, y as int, w as int, h as int, rr, cc) by {
                if rr == r0 {
                    assert(r@[r0 * c0 + cc] == spec_blur_block(
                        x as int,
                        y as int,
                        w as int,
                        h as int,
                        r0,
                        cc,
                    ));
                }
            }
        }
        row += 1;
    }
    r
}

/// A row-major flat index lies below the start of the next row.
proof fn lemma_flat_index(rr: int, cc: int, row: int, cols: int)
    by (nonlinear_arith)
    requires
        0 <= rr < row,
        0 <= cc < cols,
    ensures
        0 <= rr * cols + cc < row * cols,
{
}

/// Grid indices stay bounded by the box: a row or column index times ten
/// stays within the box extent, and the flat index stays within the grid.
proof fn lemma_grid_bounds(h: int, w: int, row: int, col: int)
    requires
        1 <= w <= 2 * CANVAS_LIMIT as int,
        1 <= h <= 2 * CANVAS_LIMIT as int,
        0 <= row <= h / 10,
        0 <= col <= w / 10,
    ensures
        0 <= col * 10 <= w,
        0 <= row * 10 <= h,
        0 <= row * (w / 10 + 1) + col < (h / 10 + 1) * (w / 10 + 1),
{
    vstd::arithmetic::div_mod::lemma_fundamental_div_mod(w, 10);
    vstd::arithmetic::div_mod::lemma_fundamental_div_mod(h, 10);
    assert(col * 10 <= (w / 10) * 10) by (nonlinear_arith)
        requires
            col <= w / 10,
    ;
    assert(row * 10 <= (h / 10) * 10) by (nonlinear_arith)
        requires
            row <= h / 10,
    ;
    assert((w / 10) * 10 <= w && (h / 10) * 10 <= h) by (nonlinear_arith)
        requires
            w >= 1 && h >= 1,
    ;
    let cols = w / 10 + 1;
    let rows = h / 10 + 1;
    assert(row * cols + col < rows * cols) by (nonlinear_arith)
        requires
            0 <= row < rows,
            0 <= col < cols || col == cols - 1 + 1,
            0 <= col,
            col <= cols - 1,
            cols >= 1,
    ;
}


pub open spec fn spec_is_selected(v: EditorView, i: int) -> bool {
    match v.selected {
        Some(s) => s as int == i,
        None => false,
    }
}

/// A plain move drag is in flight: the selected shape is previewed at the
/// live offset instead of its stored position.
pub open spec fn spec_moving(v: EditorView) -> bool {
    v.dragging && v.active_handle == HandleType::NoHandle
}

pub open spec fn spec_shape_offset(v: EditorView, i: int) -> (int, int) {
    if spec_is_selected(v, i) && spec_moving(v) {
        (v.drag_offset_x, v.drag_offset_y)
    } else {
        (0, 0)
    }
}

/// The selection adornment around a shape's box, drawn at the live offset.
pub open spec fn spec_handles_op(s: ShapeView, ox: int, oy: int) -> RenderOpView {
    let (mnx, mny, mxx, mxy) = spec_bounds(s);
    RenderOpView::Handles {
        min_x: mnx + ox,
        min_y: mny + oy,
        max_x: mxx + ox,
        max_y: mxy + oy,
        rotation: s.rotation,
    }
}

/// The commands for the committed shape at `i`: the shape at its live
/// offset, followed by the selection adornment when it is selected.
pub open spec fn spec_shape_block(v: EditorView, i: int) -> Seq<RenderOpView> {
    let s = v.committed[i];
    let (ox, oy) = spec_shape_offset(v, i);
    spec_shape_ops(s, ox, oy) + if spec_is_selected(v, i) {
        seq![spec_handles_op(s, ox, oy)]
    } else {
        Seq::empty()
    }
}

pub open spec fn spec_committed_ops(v: EditorView, n: int) -> Seq<RenderOpView>
    decreases n,
{
    if n <= 0 {
        Seq::empty()
    } else {
        spec_committed_ops(v, n - 1) + spec_shape_block(v, n - 1)
    }
}

/// The on-screen drawing commands: every committed shape in z-order (the
/// selected one at its live offset and with its adornment), then the
/// in-progress shape, then the text caret of an active text session. The
/// host paints the raster first and scales everything by the zoom factor.
pub open spec fn spec_draw_ops(v: EditorView) -> Seq<RenderOpView> {
    spec_committed_ops(v, v.committed.len() as int) + (match v.current {
        Some(s) => spec_shape_ops(s, 0, 0),
        None => Seq::empty(),
    }) + (if v.text_active {
        match v.text_pos {
            Some(p) => seq![
                RenderOpView::TextCursor {
                    x: p.0,
                    y: p.1,
                    text: v.text_buffer,
                    font_size: v.tool.font_size as int,
                    color: v.tool.color,
                },
            ],
            None => Seq::empty(),
        }
    } else {
        Seq::empty()
    })
}

/// Produce the on-screen drawing commands for the whole editor state.
pub fn draw_ops(c: &EditorCanvas) -> (r: Vec<RenderOp>)
    requires
        c@.wf(),
    ensures
        ops_view(r@) == spec_draw_ops(c@),
{
    let mut r: Vec<RenderOp> = Vec::new();
    let n = c.store.len();
    let mut i: usize = 0;
    while i < n
        invariant
            c@.wf(),
            n == c@.committed.len(),
            i <= n,
            ops_view(r@) =~= spec_committed_ops(c@, i as int),
        decreases n - i,
    {
        let shape = c.store.shape_at(i);
        let selected = match c.selected_index {
            Some(s) => s == i,
            None => false,
        };
        let moving = c.dragging && c.active_handle == HandleType::NoHandle;
        let (ox, oy): (i64, i64) = if selected && moving {
            (c.drag_offset_x, c.drag_offset_y)
        } else {
            (0, 0)
        };
        let mut block = shape_ops(shape, ox, oy);
        r.append(&mut block);
        if selected {
            let (mnx, mny, mxx, mxy) = shape.bounds();
            r.push(RenderOp::Handles {
                min_x: mnx + ox,
                min_y: mny + oy,
                max_x: mxx + ox,
                max_y: mxy + oy,
                rotation: shape.rotation,
            });
        }
        proof {
            assert(ops_view(r@) =~= spec_committed_ops(c@, i + 1));
        }
        i += 1;
    }
    match &c.current_shape {
        Some(shape) => {
            let mut block = shape_ops(shape, 0, 0);
            r.append(&mut block);
        },
        None => {},
    }
    if c.text_input_active {
        match c.text_input_pos {
            Some((x, y)) => {
                r.push(RenderOp::TextCursor {
                    x,
                    y,
                    text: copy_chars(&c.text_input_buffer),
                    font_size: c.tool.font_size,
                    color: c.tool.color,
                });
            },
            None => {},
        }
    }
    proof {
        assert(ops_view(r@) =~= spec_draw_ops(c@));
    }
    r
}

pub open spec fn spec_export_shape_ops(shapes: Seq<ShapeView>, n: int) -> Seq<RenderOpView>
    decreases n,
{
    if n <= 0 {
        Seq::empty()
    } else {
        spec_export_shape_ops(shapes, n - 1) + spec_shape_ops(shapes[n - 1], 0, 0)
    }
}

/// The flattening commands for export: every committed shape in z-order at
/// its stored position — no selection adornment, no in-progress shape, no
/// caret, no zoom. The host replays them onto the source raster and encodes
/// the result.
pub open spec fn spec_export_ops(v: EditorView) -> Seq<RenderOpView> {
    spec_export_shape_ops(v.committed, v.committed.len() as int)
}

/// Produce the flattening commands for export.
pub fn export_ops(c: &EditorCanvas) -> (r: Vec<RenderOp>)
    requires
        c@.wf(),
    ensures
        ops_view(r@) == spec_export_ops(c@),
{
    let mut r: Vec<RenderOp> = Vec::new();
    let n = c.store.len();
    let mut i: usize = 0;
    while i < n
        invariant
            c@.wf(),
            n == c@.committed.len(),
            i <= n,
            ops_view(r@) =~= spec_export_shape_ops(c@.committed, i as int),
        decreases n - i,
    {
        let shape = c.store.shape_at(i);
        let mut block = shape_ops(shape, 0, 0);
        r.append(&mut block);
        proof {
            assert(ops_view(r@) =~= spec_export_shape_ops(c@.committed, i + 1));
        }
        i += 1;
    }
    r
}

} // verus!
