//! The shape value type and its per-kind geometric behaviour.
//!
//! A shape stores exact integer canvas coordinates. Colours are channel
//! values in thousandths, rotation is an angle in microradians; both are
//! plain data the engine carries through, scaled to the rasteriser's units
//! outside the library.

use vstd::prelude::*;

use crate::geom::{
    clamp_coord, dist_sq, event_coord, in_canvas, lemma_mul_bound, max_i64, min_i64, segment_hit,
    spec_clamp_coord, spec_max, spec_min, spec_segment_hit, sq, CANVAS_LIMIT,
};

verus! {

/// Largest number of characters a text shape can carry.
pub const TEXT_LIMIT: usize = 65536;

/// Largest font size a text shape can carry.
pub const FONT_LIMIT: i64 = 100000;

/// A colour with red, green, blue and alpha channels in thousandths
/// (0 is none, 1000 is full intensity).
#[derive(Clone, Copy, PartialEq, Eq, Structural, Debug)]
pub struct Color {
    pub r: u16,
    pub g: u16,
    pub b: u16,
    pub a: u16,
}

impl Color {
    pub open spec fn wf(self) -> bool {
        self.r <= 1000 && self.g <= 1000 && self.b <= 1000 && self.a <= 1000
    }

    pub fn new(r: u16, g: u16, b: u16, a: u16) -> (c: Color)
        requires
            r <= 1000,
            g <= 1000,
            b <= 1000,
            a <= 1000,
        ensures
            c == (Color { r, g, b, a }),
            c.wf(),
    {
        Color { r, g, b, a }
    }

    pub fn red() -> (c: Color)
        ensures
            c == (Color { r: 1000u16, g: 0u16, b: 0u16, a: 1000u16 }),
    {
        Color { r: 1000, g: 0, b: 0, a: 1000 }
    }

    pub fn green() -> (c: Color)
        ensures
            c == (Color { r: 0u16, g: 800u16, b: 0u16, a: 1000u16 }),
    {
        Color { r: 0, g: 800, b: 0, a: 1000 }
    }

    pub fn blue() -> (c: Color)
        ensures
            c == (Color { r: 0u16, g: 400u16, b: 1000u16, a: 1000u16 }),
    {
        Color { r: 0, g: 400, b: 1000, a: 1000 }
    }

    pub fn yellow() -> (c: Color)
        ensures
            c == (Color { r: 1000u16, g: 800u16, b: 0u16, a: 1000u16 }),
    {
        Color { r: 1000, g: 800, b: 0, a: 1000 }
    }

    pub fn black() -> (c: Color)
        ensures
            c == (Color { r: 0u16, g: 0u16, b: 0u16, a: 1000u16 }),
    {
        Color { r: 0, g: 0, b: 0, a: 1000 }
    }

    pub fn white() -> (c: Color)
        ensures
            c == (Color { r: 1000u16, g: 1000u16, b: 1000u16, a: 1000u16 }),
    {
        Color { r: 1000, g: 1000, b: 1000, a: 1000 }
    }
}

/// The closed set of shape kinds.
#[derive(Clone, Copy, PartialEq, Eq, Structural, Debug)]
pub enum ShapeType {
    Rectangle,
    Ellipse,
    Line,
    Arrow,
    FreeHand,
    Text,
    Blur,
    Highlight,
}

/// Mathematical model of a shape: the same fields over unbounded integers,
/// with the point list and the text as sequences.
#[verifier::ext_equal]
pub ghost struct ShapeView {
    pub shape_type: ShapeType,
    pub start_x: int,
    pub start_y: int,
    pub end_x: int,
    pub end_y: int,
    pub color: Color,
    pub stroke_width: int,
    pub filled: bool,
    pub points: Seq<(int, int)>,
    pub text: Seq<char>,
    pub font_size: int,
    pub rotation: int,
}

pub open spec fn pts_view(ps: Seq<(i64, i64)>) -> Seq<(int, int)> {
    ps.map_values(|p: (i64, i64)| (p.0 as int, p.1 as int))
}

impl ShapeView {
    /// Every stored coordinate is a canvas coordinate, the kind-specific
    /// fields are empty for the kinds that do not use them, and the scalar
    /// attributes sit in their documented ranges.
    pub open spec fn wf(self) -> bool {
        &&& in_canvas(self.start_x)
        &&& in_canvas(self.start_y)
        &&& in_canvas(self.end_x)
        &&& in_canvas(self.end_y)
        &&& 0 <= self.stroke_width <= CANVAS_LIMIT as int
        &&& 1 <= self.font_size <= FONT_LIMIT as int
        &&& self.color.wf()
        &&& self.text.len() <= TEXT_LIMIT as int
        &&& forall|i: int|
            0 <= i < self.points.len() ==> in_canvas(#[trigger] self.points[i].0) && in_canvas(
                self.points[i].1,
            )
        &&& self.shape_type != ShapeType::FreeHand ==> self.points.len() == 0
        &&& self.shape_type != ShapeType::Text ==> self.text.len() == 0
    }
}

/// A drawable annotation. `start`/`end` are the anchor and the free corner
/// (or the two endpoints for lines and arrows); `points` is the sampled
/// polyline of a freehand stroke; `text` and `font_size` belong to text
/// shapes only.
#[derive(Clone, Debug)]
pub struct Shape {
    pub shape_type: ShapeType,
    pub start_x: i64,
    pub start_y: i64,
    pub end_x: i64,
    pub end_y: i64,
    pub color: Color,
    pub stroke_width: i64,
    pub filled: bool,
    pub points: Vec<(i64, i64)>,
    pub text: Vec<char>,
    pub font_size: i64,
    pub rotation: i64,
}

impl View for Shape {
    type V = ShapeView;

    open spec fn view(&self) -> ShapeView {
        ShapeView {
            shape_type: self.shape_type,
            start_x: self.start_x as int,
            start_y: self.start_y as int,
            end_x: self.end_x as int,
            end_y: self.end_y as int,
            color: self.color,
            stroke_width: self.stroke_width as int,
            filled: self.filled,
            points: pts_view(self.points@),
            text: self.text@,
            font_size: self.font_size as int,
            rotation: self.rotation as int,
        }
    }
}

pub open spec fn default_shape_view() -> ShapeView {
    ShapeView {
        shape_type: ShapeType::Rectangle,
        start_x: 0,
        start_y: 0,
        end_x: 0,
        end_y: 0,
        color: Color { r: 1000, g: 0, b: 0, a: 1000 },
        stroke_width: 3,
        filled: false,
        points: Seq::empty(),
        text: Seq::empty(),
        font_size: 20,
        rotation: 0,
    }
}

impl Default for Shape {
    /// A red, unfilled rectangle of zero extent with a moderate stroke.
    fn default() -> (s: Shape)
        ensures
            s@ == default_shape_view(),
            s@.wf(),
    {
        let s = Shape {
            shape_type: ShapeType::Rectangle,
            start_x: 0,
            start_y: 0,
            end_x: 0,
            end_y: 0,
            color: Color { r: 1000, g: 0, b: 0, a: 1000 },
            stroke_width: 3,
            filled: false,
            points: Vec::new(),
            text: Vec::new(),
            font_size: 20,
            rotation: 0,
        };
        proof {
            assert(s@ =~= default_shape_view());
        }
        s
    }
}

impl Shape {
    /// Append a sampled point to a freehand polyline.
    pub fn add_point(&mut self, x: i64, y: i64)
        requires
            in_canvas(x as int),
            in_canvas(y as int),
        ensures
            final(self)@ == (ShapeView { points: old(self)@.points.push((x as int, y as int)), ..old(self)@ }),
            old(self)@.wf() && old(self).shape_type == ShapeType::FreeHand ==> final(self)@.wf(),
    {
        self.points.push((x, y));
        proof {
            assert(final(self)@.points =~= old(self)@.points.push((x as int, y as int)));
            assert(final(self)@ =~= (ShapeView {
                points: old(self)@.points.push((x as int, y as int)),
                ..old(self)@
            }));
        }
    }

    /// Set the rotation angle (microradians, about the bounds centre).
    pub fn set_rotation(&mut self, angle: i64)
        ensures
            final(self)@ == (ShapeView { rotation: angle as int, ..old(self)@ }),
            old(self)@.wf() ==> final(self)@.wf(),
    {
        self.rotation = angle;
        proof {
            assert(final(self)@ =~= (ShapeView { rotation: angle as int, ..old(self)@ }));
        }
    }
}

pub open spec fn spec_translate_pt(p: (int, int), dx: int, dy: int) -> (int, int) {
    (spec_clamp_coord(p.0 + dx), spec_clamp_coord(p.1 + dy))
}

/// Move a whole shape by `(dx, dy)`, saturating at the canvas limits.
pub open spec fn spec_translate(s: ShapeView, dx: int, dy: int) -> ShapeView {
    ShapeView {
        start_x: spec_clamp_coord(s.start_x + dx),
        start_y: spec_clamp_coord(s.start_y + dy),
        end_x: spec_clamp_coord(s.end_x + dx),
        end_y: spec_clamp_coord(s.end_y + dy),
        points: s.points.map_values(|p: (int, int)| spec_translate_pt(p, dx, dy)),
        ..s
    }
}

impl Shape {
    /// Translate the anchor, the free corner and every sampled point by the
    /// given offset, saturating each coordinate at the canvas limits.
    pub fn translate(&mut self, dx: i64, dy: i64)
        ensures
            final(self)@ == spec_translate(old(self)@, dx as int, dy as int),
            old(self)@.wf() ==> final(self)@.wf(),
    {
        self.start_x = clamp_coord(self.start_x as i128 + dx as i128);
        self.start_y = clamp_coord(self.start_y as i128 + dy as i128);
        self.end_x = clamp_coord(self.end_x as i128 + dx as i128);
        self.end_y = clamp_coord(self.end_y as i128 + dy as i128);
        let n = self.points.len();
        let mut moved: Vec<(i64, i64)> = Vec::new();
        let mut i: usize = 0;
        while i < n
            invariant
                n == self.points.len(),
                i <= n,
                moved.len() == i,
                forall|j: int|
                    0 <= j < i ==> ((#[trigger] moved@[j]).0 as int, moved@[j].1 as int)
                        == spec_translate_pt(pts_view(self.points@)[j], dx as int, dy as int),
            decreases n - i,
        {
            let p = self.points[i];
            let qx = clamp_coord(p.0 as i128 + dx as i128);
            let qy = clamp_coord(p.1 as i128 + dy as i128);
            moved.push((qx, qy));
            i += 1;
        }
        self.points = moved;
        proof {
            assert(pts_view(self.points@) =~= old(self)@.points.map_values(
                |p: (int, int)| spec_translate_pt(p, dx as int, dy as int),
            ));
            assert(final(self)@ =~= spec_translate(old(self)@, dx as int, dy as int));
        }
    }
}


/// Smallest x among the sampled points.
pub open spec fn pts_min_x(ps: Seq<(int, int)>) -> int
    recommends
        ps.len() > 0,
    decreases ps.len(),
{
    if ps.len() <= 1 {
        ps[0].0
    } else {
        spec_min(pts_min_x(ps.drop_last()), ps.last().0)
    }
}

/// Smallest y among the sampled points.
pub open spec fn pts_min_y(ps: Seq<(int, int)>) -> int
    recommends
        ps.len() > 0,
    decreases ps.len(),
{
    if ps.len() <= 1 {
        ps[0].1
    } else {
        spec_min(pts_min_y(ps.drop_last()), ps.last().1)
    }
}

/// Largest x among the sampled points.
pub open spec fn pts_max_x(ps: Seq<(int, int)>) -> int
    recommends
        ps.len() > 0,
    decreases ps.len(),
{
    if ps.len() <= 1 {
        ps[0].0
    } else {
        spec_max(pts_max_x(ps.drop_last()), ps.last().0)
    }
}

/// Largest y among the sampled points.
pub open spec fn pts_max_y(ps: Seq<(int, int)>) -> int
    recommends
        ps.len() > 0,
    decreases ps.len(),
{
    if ps.len() <= 1 {
        ps[0].1
    } else {
        spec_max(pts_max_y(ps.drop_last()), ps.last().1)
    }
}

/// Every sampled point lies inside the box the four extrema span.
pub proof fn lemma_pts_bounds(ps: Seq<(int, int)>, i: int)
    requires
        0 <= i < ps.len(),
    ensures
        pts_min_x(ps) <= ps[i].0 <= pts_max_x(ps),
        pts_min_y(ps) <= ps[i].1 <= pts_max_y(ps),
    decreases ps.len(),
{
    if ps.len() > 1 && i < ps.len() - 1 {
        lemma_pts_bounds(ps.drop_last(), i);
        assert(ps.drop_last()[i] == ps[i]);
    }
}

/// The extrema of canvas points are canvas coordinates themselves.
pub proof fn lemma_pts_extrema_in_canvas(ps: Seq<(int, int)>)
    requires
        ps.len() > 0,
        forall|i: int| 0 <= i < ps.len() ==> in_canvas(#[trigger] ps[i].0) && in_canvas(ps[i].1),
    ensures
        in_canvas(pts_min_x(ps)),
        in_canvas(pts_min_y(ps)),
        in_canvas(pts_max_x(ps)),
        in_canvas(pts_max_y(ps)),
    decreases ps.len(),
{
    if ps.len() > 1 {
        lemma_pts_extrema_in_canvas(ps.drop_last());
    }
}

/// Width of the fixed-advance text box: characters times six tenths of the
/// font size, rounded down.
pub open spec fn spec_text_width(s: ShapeView) -> int {
    (s.text.len() * s.font_size * 3) / 5
}

/// Axis-aligned bounding box `(min_x, min_y, max_x, max_y)` in the shape's
/// own unrotated frame. A freehand stroke without points degenerates to its
/// anchor; a text shape spans its fixed-advance box.
pub open spec fn spec_bounds(s: ShapeView) -> (int, int, int, int) {
    match s.shape_type {
        ShapeType::FreeHand => if s.points.len() == 0 {
            (s.start_x, s.start_y, s.start_x, s.start_y)
        } else {
            (pts_min_x(s.points), pts_min_y(s.points), pts_max_x(s.points), pts_max_y(s.points))
        },
        ShapeType::Text => (
            s.start_x,
            s.start_y,
            s.start_x + spec_text_width(s),
            s.start_y + s.font_size,
        ),
        _ => (
            spec_min(s.start_x, s.end_x),
            spec_min(s.start_y, s.end_y),
            spec_max(s.start_x, s.end_x),
            spec_max(s.start_y, s.end_y),
        ),
    }
}

/// Largest magnitude a bounding-box coordinate can have; only a text box can
/// extend past the canvas limit, by at most its fixed-advance width.
pub const BOUNDS_LIMIT: i64 = 5000000000000;

impl ShapeView {
    pub open spec fn bounds_wf(self) -> bool {
        let (min_x, min_y, max_x, max_y) = spec_bounds(self);
        &&& min_x <= max_x
        &&& min_y <= max_y
        &&& -(CANVAS_LIMIT as int) <= min_x
        &&& -(CANVAS_LIMIT as int) <= min_y
        &&& max_x <= BOUNDS_LIMIT as int
        &&& max_y <= BOUNDS_LIMIT as int
    }
}

/// A well-formed shape has a well-ordered, bounded bounding box.
pub proof fn lemma_bounds_wf(s: ShapeView)
    requires
        s.wf(),
    ensures
        s.bounds_wf(),
{
    if s.shape_type == ShapeType::FreeHand && s.points.len() > 0 {
        lemma_pts_extrema_in_canvas(s.points);
        lemma_pts_bounds(s.points, 0);
    }
    if s.shape_type == ShapeType::Text {
        crate::geom::lemma_mul_bound(s.text.len() as int, s.font_size, 65536, 100000);
        vstd::arithmetic::div_mod::lemma_div_is_ordered(0, s.text.len() * s.font_size * 3, 5);
        vstd::arithmetic::div_mod::lemma_div_is_ordered(
            s.text.len() * s.font_size * 3,
            19660800000000,
            5,
        );
    }
}

impl Shape {
    /// Compute the bounding box `(min_x, min_y, max_x, max_y)`.
    pub fn bounds(&self) -> (r: (i64, i64, i64, i64))
        requires
            self@.wf(),
        ensures
            (r.0 as int, r.1 as int, r.2 as int, r.3 as int) == spec_bounds(self@),
            self@.bounds_wf(),
    {
        proof {
            lemma_bounds_wf(self@);
        }
        match self.shape_type {
            ShapeType::FreeHand => {
                let n = self.points.len();
                if n == 0 {
                    (self.start_x, self.start_y, self.start_x, self.start_y)
                } else {
                    let ghost pv = pts_view(self.points@);
                    let first = self.points[0];
                    let mut mnx = first.0;
                    let mut mny = first.1;
                    let mut mxx = first.0;
                    let mut mxy = first.1;
                    let mut i: usize = 1;
                    proof {
                        assert(pv.take(1).len() == 1);
                        assert(pv.take(1)[0] == pv[0]);
                    }
                    while i < n
                        invariant
                            n == self.points.len(),
                            pv == pts_view(self.points@),
                            1 <= i <= n,
                            mnx == pts_min_x(pv.take(i as int)),
                            mny == pts_min_y(pv.take(i as int)),
                            mxx == pts_max_x(pv.take(i as int)),
                            mxy == pts_max_y(pv.take(i as int)),
                        decreases n - i,
                    {
                        let p = self.points[i];
                        proof {
                            assert(pv.take(i + 1).drop_last() =~= pv.take(i as int));
                            assert(pv.take(i + 1).last() == pv[i as int]);
                        }
                        mnx = min_i64(mnx, p.0);
                        mny = min_i64(mny, p.1);
                        mxx = max_i64(mxx, p.0);
                        mxy = max_i64(mxy, p.1);
                        i += 1;
                    }
                    proof {
                        assert(pv.take(n as int) =~= pv);
                    }
                    (mnx, mny, mxx, mxy)
                }
            },
            ShapeType::Text => {
                let w = (self.text.len() as i64) * self.font_size * 3 / 5;
                (self.start_x, self.start_y, self.start_x + w, self.start_y + self.font_size)
            },
            _ => {
                (
                    min_i64(self.start_x, self.end_x),
                    min_i64(self.start_y, self.end_y),
                    max_i64(self.start_x, self.end_x),
                    max_i64(self.start_y, self.end_y),
                )
            },
        }
    }

    /// Twice the centre of the bounding box; doubling keeps half-unit
    /// centres exact.
    pub fn center_doubled(&self) -> (r: (i64, i64))
        requires
            self@.wf(),
        ensures
            ({
                let (min_x, min_y, max_x, max_y) = spec_bounds(self@);
                r.0 == min_x + max_x && r.1 == min_y + max_y
            }),
    {
        let (min_x, min_y, max_x, max_y) = self.bounds();
        (min_x + max_x, min_y + max_y)
    }
}


/// Hit-test slack: the stroke width, but at least five canvas units.
pub open spec fn spec_tolerance(s: ShapeView) -> int {
    spec_max(s.stroke_width, 5)
}

/// Exact hit test for the ellipse inscribed in the box from `start` to
/// `end`, with both radii widened by the tolerance. All quantities are
/// doubled so the half-unit centre and radii stay integral; the normalised
/// ellipse equation is compared after clearing denominators. An ellipse
/// whose widened radius stays below one unit never matches.
pub open spec fn spec_ellipse_hit(s: ShapeView, x: int, y: int) -> bool {
    let tol = spec_tolerance(s);
    let cx2 = s.start_x + s.end_x;
    let cy2 = s.start_y + s.end_y;
    let rx2 = spec_max(s.end_x - s.start_x, s.start_x - s.end_x) + 2 * tol;
    let ry2 = spec_max(s.end_y - s.start_y, s.start_y - s.end_y) + 2 * tol;
    if rx2 < 2 || ry2 < 2 {
        false
    } else {
        let dx2 = 2 * x - cx2;
        let dy2 = 2 * y - cy2;
        sq(dx2 * ry2) + sq(dy2 * rx2) <= sq(rx2 * ry2)
    }
}

/// Whether the point lies within the tolerance of any sampled point of a
/// freehand stroke (the sampled points, not the polyline between them).
pub open spec fn spec_freehand_hit(s: ShapeView, x: int, y: int) -> bool {
    let tol = spec_tolerance(s);
    exists|i: int|
        0 <= i < s.points.len() && dist_sq(x, y, #[trigger] s.points[i].0, s.points[i].1) <= sq(tol)
}

/// The hit test of `Shape::contains_point`, stated per kind.
pub open spec fn spec_contains(s: ShapeView, x: int, y: int) -> bool {
    let tol = spec_tolerance(s);
    let (min_x, min_y, max_x, max_y) = spec_bounds(s);
    match s.shape_type {
        ShapeType::Rectangle | ShapeType::Blur | ShapeType::Highlight => min_x - tol <= x <= max_x
            + tol && min_y - tol <= y <= max_y + tol,
        ShapeType::Ellipse => spec_ellipse_hit(s, x, y),
        ShapeType::Line | ShapeType::Arrow => spec_segment_hit(
            x,
            y,
            s.start_x,
            s.start_y,
            s.end_x,
            s.end_y,
            tol,
        ),
        ShapeType::FreeHand => spec_freehand_hit(s, x, y),
        ShapeType::Text => min_x <= x <= max_x && min_y <= y <= max_y + s.font_size,
    }
}

impl Shape {
    /// Decide whether the query point hits this shape, with a tolerance of
    /// the stroke width or five canvas units, whichever is larger.
    pub fn contains_point(&self, x: i64, y: i64) -> (r: bool)
        requires
            self@.wf(),
            in_canvas(x as int),
            in_canvas(y as int),
        ensures
            r == spec_contains(self@, x as int, y as int),
    {
        let tolerance = max_i64(self.stroke_width, 5);
        match self.shape_type {
            ShapeType::Rectangle | ShapeType::Blur | ShapeType::Highlight => {
                let (min_x, min_y, max_x, max_y) = self.bounds();
                x >= min_x - tolerance && x <= max_x + tolerance && y >= min_y - tolerance && y
                    <= max_y + tolerance
            },
            ShapeType::Ellipse => {
                let cx2: i64 = self.start_x + self.end_x;
                let cy2: i64 = self.start_y + self.end_y;
                let w: i64 = max_i64(self.end_x - self.start_x, self.start_x - self.end_x);
                let h: i64 = max_i64(self.end_y - self.start_y, self.start_y - self.end_y);
                let rx2: i64 = w + 2 * tolerance;
                let ry2: i64 = h + 2 * tolerance;
                if rx2 < 2 || ry2 < 2 {
                    false
                } else {
                    let dx2: i128 = 2 * x as i128 - cx2 as i128;
                    let dy2: i128 = 2 * y as i128 - cy2 as i128;
                    proof {
                        lemma_mul_bound(dx2 as int, ry2 as int, 0x4000_0000, 0x4000_0000);
                        lemma_mul_bound(dy2 as int, rx2 as int, 0x4000_0000, 0x4000_0000);
                        lemma_mul_bound(rx2 as int, ry2 as int, 0x4000_0000, 0x4000_0000);
                        lemma_mul_bound(
                            dx2 as int * ry2 as int,
                            dx2 as int * ry2 as int,
                            0x1000_0000_0000_0000,
                            0x1000_0000_0000_0000,
                        );
                        lemma_mul_bound(
                            dy2 as int * rx2 as int,
                            dy2 as int * rx2 as int,
                            0x1000_0000_0000_0000,
                            0x1000_0000_0000_0000,
                        );
                        lemma_mul_bound(
                            rx2 as int * ry2 as int,
                            rx2 as int * ry2 as int,
                            0x1000_0000_0000_0000,
                            0x1000_0000_0000_0000,
                        );
                    }
                    let a: i128 = dx2 * ry2 as i128;
                    let b: i128 = dy2 * rx2 as i128;
                    let c: i128 = rx2 as i128 * ry2 as i128;
                    a * a + b * b <= c * c
                }
            },
            ShapeType::Line | ShapeType::Arrow => {
                segment_hit(x, y, self.start_x, self.start_y, self.end_x, self.end_y, tolerance)
            },
            ShapeType::FreeHand => {
                let n = self.points.len();
                let mut i: usize = 0;
                let mut found = false;
                while i < n
                    invariant
                        n == self.points.len(),
                        i <= n,
                        self@.wf(),
                        in_canvas(x as int),
                        in_canvas(y as int),
                        tolerance as int == spec_tolerance(self@),
                        found == exists|j: int|
                            0 <= j < i && dist_sq(
                                x as int,
                                y as int,
                                #[trigger] self@.points[j].0,
                                self@.points[j].1,
                            ) <= sq(tolerance as int),
                    decreases n - i,
                {
                    let p = self.points[i];
                    let ddx: i128 = x as i128 - p.0 as i128;
                    let ddy: i128 = y as i128 - p.1 as i128;
                    proof {
                        assert(self@.points[i as int] == (p.0 as int, p.1 as int));
                        assert(in_canvas(self@.points[i as int].0));
                        lemma_mul_bound(ddx as int, ddx as int, 0x2000_0000, 0x2000_0000);
                        lemma_mul_bound(ddy as int, ddy as int, 0x2000_0000, 0x2000_0000);
                        lemma_mul_bound(tolerance as int, tolerance as int, 0x2000_0000, 0x2000_0000);
                    }
                    if ddx * ddx + ddy * ddy <= tolerance as i128 * tolerance as i128 {
                        found = true;
                    }
                    i += 1;
                }
                found
            },
            ShapeType::Text => {
                let (min_x, min_y, max_x, max_y) = self.bounds();
                x >= min_x && x <= max_x && y >= min_y && y <= max_y + self.font_size
            },
        }
    }
}


/// Box resize for rectangle-like kinds: each corner drags its own edge pair.
pub open spec fn spec_resize_rect(s: ShapeView, corner: u8, nx: int, ny: int) -> ShapeView {
    if corner == 0 {
        ShapeView { start_x: nx, start_y: ny, ..s }
    } else if corner == 1 {
        ShapeView { end_x: nx, start_y: ny, ..s }
    } else if corner == 2 {
        ShapeView { start_x: nx, end_y: ny, ..s }
    } else if corner == 3 {
        ShapeView { end_x: nx, end_y: ny, ..s }
    } else {
        s
    }
}

/// Endpoint resize for lines and arrows: the left corners move `start`, the
/// right corners move `end`.
pub open spec fn spec_resize_line(s: ShapeView, corner: u8, nx: int, ny: int) -> ShapeView {
    if corner == 0 || corner == 2 {
        ShapeView { start_x: nx, start_y: ny, ..s }
    } else if corner == 1 || corner == 3 {
        ShapeView { end_x: nx, end_y: ny, ..s }
    } else {
        s
    }
}

/// The box implied by dragging one corner while the opposite corner stays.
pub open spec fn spec_new_box(
    b: (int, int, int, int),
    corner: u8,
    nx: int,
    ny: int,
) -> (int, int, int, int) {
    let (omnx, omny, omxx, omxy) = b;
    if corner == 0 {
        (nx, ny, omxx, omxy)
    } else if corner == 1 {
        (omnx, ny, nx, omxy)
    } else if corner == 2 {
        (nx, omny, omxx, ny)
    } else {
        (omnx, omny, nx, ny)
    }
}

/// Proportional rescale of a freehand stroke: every sampled point is
/// remapped by the ratio of the new box to the old box, both extents floored
/// at one unit, with integer division rounding down; `start`/`end` become
/// the new box corners.
pub open spec fn spec_resize_freehand(s: ShapeView, corner: u8, nx: int, ny: int) -> ShapeView {
    if corner >= 4 {
        s
    } else {
        let (omnx, omny, omxx, omxy) = spec_bounds(s);
        let ow = spec_max(omxx - omnx, 1);
        let oh = spec_max(omxy - omny, 1);
        let (nmnx, nmny, nmxx, nmxy) = spec_new_box(spec_bounds(s), corner, nx, ny);
        let nw = spec_max(nmxx - nmnx, 1);
        let nh = spec_max(nmxy - nmny, 1);
        ShapeView {
            start_x: nmnx,
            start_y: nmny,
            end_x: nmxx,
            end_y: nmxy,
            points: s.points.map_values(
                |p: (int, int)|
                    (
                        spec_clamp_coord(nmnx + (p.0 - omnx) * nw / ow),
                        spec_clamp_coord(nmny + (p.1 - omny) * nh / oh),
                    ),
            ),
            ..s
        }
    }
}

pub open spec fn spec_clamp_font(v: int) -> int {
    if v < 8 {
        8
    } else if v > 100 {
        100
    } else {
        v
    }
}

/// Font resize for text shapes: a vertical drag rescales the font size by
/// the height ratio, the ratio clamped to one half through five per step and
/// the font size clamped to eight through one hundred; the top corners also
/// move the anchor to the cursor, the bottom-left corner moves it
/// horizontally.
pub open spec fn spec_resize_text(s: ShapeView, corner: u8, nx: int, ny: int) -> ShapeView {
    if corner >= 4 {
        s
    } else {
        let (omnx, omny, omxx, omxy) = spec_bounds(s);
        let oh = spec_max(omxy - omny, 1);
        let nh = if corner == 0 || corner == 1 {
            omxy - ny
        } else {
            ny - omny
        };
        let scaled = if 2 * nh <= oh {
            s.font_size / 2
        } else if nh >= 5 * oh {
            s.font_size * 5
        } else {
            s.font_size * nh / oh
        };
        let with_font = ShapeView { font_size: spec_clamp_font(scaled), ..s };
        if corner == 0 {
            ShapeView { start_x: nx, start_y: ny, ..with_font }
        } else if corner == 2 {
            ShapeView { start_x: nx, ..with_font }
        } else {
            with_font
        }
    }
}

/// Corner resize, dispatched on the shape kind.
pub open spec fn spec_resize(s: ShapeView, corner: u8, nx: int, ny: int) -> ShapeView {
    match s.shape_type {
        ShapeType::FreeHand => spec_resize_freehand(s, corner, nx, ny),
        ShapeType::Text => spec_resize_text(s, corner, nx, ny),
        ShapeType::Line | ShapeType::Arrow => spec_resize_line(s, corner, nx, ny),
        _ => spec_resize_rect(s, corner, nx, ny),
    }
}

impl Shape {
    /// Drag the given corner (0 top-left, 1 top-right, 2 bottom-left,
    /// 3 bottom-right) to `(new_x, new_y)`. The update is immediate: corner
    /// resize is not recorded in the undo history. Resizing a freehand
    /// stroke preserves its point count.
    pub fn resize_corner(&mut self, corner: u8, new_x: i64, new_y: i64)
        requires
            old(self)@.wf(),
            event_coord(new_x as int),
            event_coord(new_y as int),
        ensures
            final(self)@ == spec_resize(old(self)@, corner, new_x as int, new_y as int),
            final(self)@.wf(),
            final(self)@.points.len() == old(self)@.points.len(),
    {
        match self.shape_type {
            ShapeType::FreeHand => self.resize_freehand_proportional(corner, new_x, new_y),
            ShapeType::Text => self.resize_text(corner, new_x, new_y),
            ShapeType::Line | ShapeType::Arrow => self.resize_line(corner, new_x, new_y),
            _ => self.resize_rect_based(corner, new_x, new_y),
        }
    }

    fn resize_rect_based(&mut self, corner: u8, new_x: i64, new_y: i64)
        requires
            old(self)@.wf(),
            event_coord(new_x as int),
            event_coord(new_y as int),
            old(self).shape_type != ShapeType::FreeHand,
            old(self).shape_type != ShapeType::Text,
        ensures
            final(self)@ == spec_resize_rect(old(self)@, corner, new_x as int, new_y as int),
            final(self)@.wf(),
    {
        match corner {
            0 => {
                self.start_x = new_x;
                self.start_y = new_y;
            },
            1 => {
                self.end_x = new_x;
                self.start_y = new_y;
            },
            2 => {
                self.start_x = new_x;
                self.end_y = new_y;
            },
            3 => {
                self.end_x = new_x;
                self.end_y = new_y;
            },
            _ => {},
        }
        proof {
            assert(final(self)@ =~= spec_resize_rect(old(self)@, corner, new_x as int, new_y as int));
        }
    }

    fn resize_line(&mut self, corner: u8, new_x: i64, new_y: i64)
        requires
            old(self)@.wf(),
            event_coord(new_x as int),
            event_coord(new_y as int),
        ensures
            final(self)@ == spec_resize_line(old(self)@, corner, new_x as int, new_y as int),
            final(self)@.wf(),
    {
        match corner {
            0 | 2 => {
                self.start_x = new_x;
                self.start_y = new_y;
            },
            1 | 3 => {
                self.end_x = new_x;
                self.end_y = new_y;
            },
            _ => {},
        }
        proof {
            assert(final(self)@ =~= spec_resize_line(old(self)@, corner, new_x as int, new_y as int));
        }
    }

    fn resize_freehand_proportional(&mut self, corner: u8, new_x: i64, new_y: i64)
        requires
            old(self)@.wf(),
            event_coord(new_x as int),
            event_coord(new_y as int),
            old(self).shape_type == ShapeType::FreeHand,
        ensures
            final(self)@ == spec_resize_freehand(old(self)@, corner, new_x as int, new_y as int),
            final(self)@.wf(),
            final(self)@.points.len() == old(self)@.points.len(),
    {
        if corner >= 4 {
            return ;
        }
        let (omnx, omny, omxx, omxy) = self.bounds();
        proof {
            if self@.points.len() > 0 {
                lemma_pts_extrema_in_canvas(self@.points);
            }
        }
        let ow = max_i64(omxx - omnx, 1);
        let oh = max_i64(omxy - omny, 1);
        let (nmnx, nmny, nmxx, nmxy) = match corner {
            0 => (new_x, new_y, omxx, omxy),
            1 => (omnx, new_y, new_x, omxy),
            2 => (new_x, omny, omxx, new_y),
            _ => (omnx, omny, new_x, new_y),
        };
        let nw = max_i64(nmxx - nmnx, 1);
        let nh = max_i64(nmxy - nmny, 1);
        let n = self.points.len();
        let mut scaled: Vec<(i64, i64)> = Vec::new();
        let mut i: usize = 0;
        let ghost mapper = |p: (int, int)|
            (
                spec_clamp_coord(nmnx as int + (p.0 - omnx as int) * (nw as int) / (ow as int)),
                spec_clamp_coord(nmny as int + (p.1 - omny as int) * (nh as int) / (oh as int)),
            );
        while i < n
            invariant
                n == self.points.len(),
                i <= n,
                self@.wf(),
                self.shape_type == ShapeType::FreeHand,
                n > 0 ==> omnx as int == pts_min_x(self@.points) && omny as int == pts_min_y(
                    self@.points,
                ),
                in_canvas(omnx as int) && in_canvas(omny as int),
                in_canvas(nmnx as int) && in_canvas(nmny as int),
                1 <= ow <= 0x40000000,
                1 <= oh <= 0x40000000,
                1 <= nw <= 0x40000000,
                1 <= nh <= 0x40000000,
                mapper == (|p: (int, int)|
                    (
                        spec_clamp_coord(nmnx as int + (p.0 - omnx as int) * (nw as int) / (ow as int)),
                        spec_clamp_coord(nmny as int + (p.1 - omny as int) * (nh as int) / (oh as int)),
                    )),
                scaled.len() == i,
                forall|j: int|
                    0 <= j < i ==> ((#[trigger] scaled@[j]).0 as int, scaled@[j].1 as int)
                        == mapper(self@.points[j]),
            decreases n - i,
        {
            let p = self.points[i];
            proof {
                assert(self@.points[i as int] == (p.0 as int, p.1 as int));
                assert(in_canvas(self@.points[i as int].0));
                lemma_pts_bounds(self@.points, i as int);
                lemma_mul_bound(p.0 - omnx, nw as int, 0x80000000, 0x40000000);
                lemma_mul_bound(p.1 - omny, nh as int, 0x80000000, 0x40000000);
                vstd::arithmetic::div_mod::lemma_div_is_ordered(
                    0,
                    (p.0 - omnx) * nw,
                    ow as int,
                );
                vstd::arithmetic::div_mod::lemma_div_is_ordered(
                    (p.0 - omnx) * nw,
                    0x2000_0000_0000_0000,
                    ow as int,
                );
                vstd::arithmetic::div_mod::lemma_div_is_ordered(
                    0,
                    (p.1 - omny) * nh,
                    oh as int,
                );
                vstd::arithmetic::div_mod::lemma_div_is_ordered(
                    (p.1 - omny) * nh,
                    0x2000_0000_0000_0000,
                    oh as int,
                );
            }
            let tx: i64 = (p.0 - omnx) * nw / ow;
            let ty: i64 = (p.1 - omny) * nh / oh;
            let qx = clamp_coord(nmnx as i128 + tx as i128);
            let qy = clamp_coord(nmny as i128 + ty as i128);
            scaled.push((qx, qy));
            i += 1;
        }
        self.start_x = nmnx;
        self.start_y = nmny;
        self.end_x = nmxx;
        self.end_y = nmxy;
        self.points = scaled;
        proof {
            assert(pts_view(self.points@) =~= old(self)@.points.map_values(mapper));
            assert(final(self)@ =~= spec_resize_freehand(
                old(self)@,
                corner,
                new_x as int,
                new_y as int,
            ));
        }
    }

    fn resize_text(&mut self, corner: u8, new_x: i64, new_y: i64)
        requires
            old(self)@.wf(),
            event_coord(new_x as int),
            event_coord(new_y as int),
            old(self).shape_type == ShapeType::Text,
        ensures
            final(self)@ == spec_resize_text(old(self)@, corner, new_x as int, new_y as int),
            final(self)@.wf(),
    {
        if corner >= 4 {
            return ;
        }
        let (_, omny, _, omxy) = self.bounds();
        let oh = max_i64(omxy - omny, 1);
        let nh = if corner == 0 || corner == 1 {
            omxy - new_y
        } else {
            new_y - omny
        };
        let scaled = if 2 * nh <= oh {
            self.font_size / 2
        } else if nh >= 5 * oh {
            self.font_size * 5
        } else {
            proof {
                lemma_mul_bound(self.font_size as int, nh as int, 100000, 0x80000000);
                vstd::arithmetic::div_mod::lemma_div_is_ordered(
                    self.font_size * nh,
                    0x2_0000_0000_0000,
                    oh as int,
                );
                vstd::arithmetic::div_mod::lemma_div_is_ordered(
                    -0x2_0000_0000_0000,
                    self.font_size * nh,
                    oh as int,
                );
            }
            self.font_size * nh / oh
        };
        let clamped = if scaled < 8 {
            8
        } else if scaled > 100 {
            100
        } else {
            scaled
        };
        self.font_size = clamped;
        match corner {
            0 => {
                self.start_x = new_x;
                self.start_y = new_y;
            },
            2 => {
                self.start_x = new_x;
            },
            _ => {},
        }
        proof {
            assert(final(self)@ =~= spec_resize_text(old(self)@, corner, new_x as int, new_y as int));
        }
    }
}


/// Whether translating `s` by `(dx, dy)` stays inside the canvas, so that no
/// coordinate saturates.
pub open spec fn translate_in_range(s: ShapeView, dx: int, dy: int) -> bool {
    &&& in_canvas(s.start_x + dx)
    &&& in_canvas(s.start_y + dy)
    &&& in_canvas(s.end_x + dx)
    &&& in_canvas(s.end_y + dy)
    &&& forall|i: int|
        0 <= i < s.points.len() ==> in_canvas(#[trigger] s.points[i].0 + dx) && in_canvas(
            s.points[i].1 + dy,
        )
}

/// Translating a shape by an offset and back restores it, and with it its
/// bounding box, exactly, whenever the first move does not leave the canvas.
pub proof fn lemma_translate_round_trip(s: ShapeView, dx: int, dy: int)
    requires
        s.wf(),
        translate_in_range(s, dx, dy),
    ensures
        spec_translate(spec_translate(s, dx, dy), -dx, -dy) == s,
        spec_bounds(spec_translate(spec_translate(s, dx, dy), -dx, -dy)) == spec_bounds(s),
{
    let there = spec_translate(s, dx, dy);
    let back = spec_translate(there, -dx, -dy);
    assert forall|i: int| 0 <= i < s.points.len() implies #[trigger] back.points[i] == s.points[i] by {
        assert(in_canvas(s.points[i].0));
        assert(there.points[i] == (s.points[i].0 + dx, s.points[i].1 + dy));
    }
    assert(back.points =~= s.points);
    assert(back =~= s);
}

} // verus!
