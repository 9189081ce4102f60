//! The editor engine: the owned state behind the drawing canvas.
//!
//! It holds the shape store, the tool state, the zoom view state and the
//! transient interaction state (an in-progress shape, a drag session, a text
//! session, a pan session), and consumes pointer and key events that have
//! already been mapped to plain values. Pointer coordinates arrive in device
//! space and are divided by the zoom factor exactly once, at this boundary;
//! everything stored is in canvas space.

use vstd::prelude::*;

use crate::geom::{event_coord, lemma_mul_bound, CANVAS_LIMIT, COORD_MAX, DEVICE_MAX};
use crate::png::{png_dims, spec_png_dims};
use crate::shapes::{Color, Shape, ShapeType, ShapeView, TEXT_LIMIT};
use crate::store::{spec_store_pop_redo, spec_store_pop_undo, ShapeStore};
use crate::tools::{spec_create_text_shape, Tool, ToolType};
use crate::zoom::{zoom_den, zoom_num, ZoomLevel};

verus! {

/// A draggable control point of the selected shape: one of the four box
/// corners, the rotation knob above the box, or none (a plain move).
#[derive(Clone, Copy, PartialEq, Eq, Structural, Debug)]
pub enum HandleType {
    NoHandle,
    TopLeft,
    TopRight,
    BottomLeft,
    BottomRight,
    Rotation,
}

/// Mathematical model of the whole engine state.
#[verifier::ext_equal]
pub ghost struct EditorView {
    pub image_width: int,
    pub image_height: int,
    pub has_image: bool,
    pub committed: Seq<ShapeView>,
    pub redo: Seq<ShapeView>,
    pub current: Option<ShapeView>,
    pub tool: Tool,
    pub drawing: bool,
    pub selected: Option<usize>,
    pub dragging: bool,
    pub drag_start_x: int,
    pub drag_start_y: int,
    pub drag_offset_x: int,
    pub drag_offset_y: int,
    pub text_active: bool,
    pub text_pos: Option<(int, int)>,
    pub text_buffer: Seq<char>,
    pub active_handle: HandleType,
    pub initial_rotation: int,
    pub zoom: ZoomLevel,
    pub panning: bool,
    pub pan_start_x: int,
    pub pan_start_y: int,
}

/// The editor engine state.
pub struct EditorCanvas {
    pub image_width: i64,
    pub image_height: i64,
    pub has_image: bool,
    pub store: ShapeStore,
    pub current_shape: Option<Shape>,
    pub tool: Tool,
    pub drawing: bool,
    pub selected_index: Option<usize>,
    pub dragging: bool,
    pub drag_start_x: i64,
    pub drag_start_y: i64,
    pub drag_offset_x: i64,
    pub drag_offset_y: i64,
    pub text_input_active: bool,
    pub text_input_pos: Option<(i64, i64)>,
    pub text_input_buffer: Vec<char>,
    pub active_handle: HandleType,
    pub initial_rotation: i64,
    pub zoom: ZoomLevel,
    pub panning: bool,
    pub pan_start_x: i64,
    pub pan_start_y: i64,
}

impl View for EditorCanvas {
    type V = EditorView;

    open spec fn view(&self) -> EditorView {
        EditorView {
            image_width: self.image_width as int,
            image_height: self.image_height as int,
            has_image: self.has_image,
            committed: self.store.committed_view(),
            redo: self.store.redo_view(),
            current: match self.current_shape {
                Some(s) => Some(s@),
                None => None,
            },
            tool: self.tool,
            drawing: self.drawing,
            selected: self.selected_index,
            dragging: self.dragging,
            drag_start_x: self.drag_start_x as int,
            drag_start_y: self.drag_start_y as int,
            drag_offset_x: self.drag_offset_x as int,
            drag_offset_y: self.drag_offset_y as int,
            text_active: self.text_input_active,
            text_pos: match self.text_input_pos {
                Some(p) => Some((p.0 as int, p.1 as int)),
                None => None,
            },
            text_buffer: self.text_input_buffer@,
            active_handle: self.active_handle,
            initial_rotation: self.initial_rotation as int,
            zoom: self.zoom,
            panning: self.panning,
            pan_start_x: self.pan_start_x as int,
            pan_start_y: self.pan_start_y as int,
        }
    }
}

impl EditorView {
    /// The engine invariant: stored shapes are well-formed, the selection
    /// points into the committed sequence, transient coordinates are event
    /// coordinates, the buffers respect their size limits, and the zoom is a
    /// rung of its ladder.
    pub open spec fn wf(self) -> bool {
        &&& forall|i: int| 0 <= i < self.committed.len() ==> (#[trigger] self.committed[i]).wf()
        &&& forall|i: int| 0 <= i < self.redo.len() ==> (#[trigger] self.redo[i]).wf()
        &&& match self.current {
            Some(s) => s.wf(),
            None => true,
        }
        &&& self.tool.wf()
        &&& match self.selected {
            Some(i) => i < self.committed.len(),
            None => true,
        }
        &&& event_coord(self.drag_start_x) && event_coord(self.drag_start_y)
        &&& event_coord(self.drag_offset_x) && event_coord(self.drag_offset_y)
        &&& match self.text_pos {
            Some(p) => event_coord(p.0) && event_coord(p.1),
            None => true,
        }
        &&& self.text_buffer.len() <= TEXT_LIMIT as int
        &&& 0 <= self.image_width <= 0x7fffffff
        &&& 0 <= self.image_height <= 0x7fffffff
        &&& self.zoom.wf()
    }

    /// The state a fresh engine starts in.
    pub open spec fn initial() -> EditorView {
        EditorView {
            image_width: 0,
            image_height: 0,
            has_image: false,
            committed: Seq::empty(),
            redo: Seq::empty(),
            current: None,
            tool: Tool {
                tool_type: ToolType::Select,
                color: Color { r: 1000, g: 0, b: 0, a: 1000 },
                stroke_width: 3,
                filled: false,
                font_size: 20,
            },
            drawing: false,
            selected: None,
            dragging: false,
            drag_start_x: 0,
            drag_start_y: 0,
            drag_offset_x: 0,
            drag_offset_y: 0,
            text_active: false,
            text_pos: None,
            text_buffer: Seq::empty(),
            active_handle: HandleType::NoHandle,
            initial_rotation: 0,
            zoom: ZoomLevel::FromUnit(0),
            panning: false,
            pan_start_x: 0,
            pan_start_y: 0,
        }
    }
}

/// Committing a text session: the anchored, non-empty buffer becomes a text
/// shape (discarding the redo history); the session fields are reset either
/// way.
pub open spec fn spec_finish_text(v: EditorView) -> EditorView {
    let base = EditorView { text_active: false, text_pos: None, text_buffer: Seq::empty(), ..v };
    match v.text_pos {
        Some(p) => if v.text_buffer.len() > 0 {
            EditorView {
                committed: v.committed.push(spec_create_text_shape(v.tool, p.0, p.1, v.text_buffer)),
                redo: Seq::empty(),
                ..base
            }
        } else {
            base
        },
        None => base,
    }
}

impl EditorCanvas {
    /// A fresh engine: no image, no shapes, select tool, unit zoom.
    pub fn new() -> (c: EditorCanvas)
        ensures
            c@ == EditorView::initial(),
            c@.wf(),
    {
        let c = EditorCanvas {
            image_width: 0,
            image_height: 0,
            has_image: false,
            store: ShapeStore::new(),
            current_shape: None,
            tool: Tool {
                tool_type: ToolType::Select,
                color: Color { r: 1000, g: 0, b: 0, a: 1000 },
                stroke_width: 3,
                filled: false,
                font_size: 20,
            },
            drawing: false,
            selected_index: None,
            dragging: false,
            drag_start_x: 0,
            drag_start_y: 0,
            drag_offset_x: 0,
            drag_offset_y: 0,
            text_input_active: false,
            text_input_pos: None,
            text_input_buffer: Vec::new(),
            active_handle: HandleType::NoHandle,
            initial_rotation: 0,
            zoom: ZoomLevel::FromUnit(0),
            panning: false,
            pan_start_x: 0,
            pan_start_y: 0,
        };
        proof {
            assert(c@ =~= EditorView::initial());
        }
        c
    }

    /// Replace the source raster: a well-formed PNG header resets the
    /// committed and redo sequences and the selection and stores the new
    /// pixel size; malformed bytes leave the whole state untouched.
    pub fn set_image(&mut self, data: &[u8])
        requires
            old(self)@.wf(),
        ensures
            final(self)@.wf(),
            ({
                match spec_png_dims(data@) {
                    Some(d) => final(self)@ == (EditorView {
                        image_width: d.0,
                        image_height: d.1,
                        has_image: true,
                        committed: Seq::empty(),
                        redo: Seq::empty(),
                        selected: None,
                        ..old(self)@
                    }),
                    None => final(self)@ == old(self)@,
                }
            }),
    {
        match png_dims(data) {
            Some((w, h)) => {
                self.image_width = w;
                self.image_height = h;
                self.has_image = true;
                self.store.committed.clear();
                self.store.redo.clear();
                self.selected_index = None;
                proof {
                    assert(self.store.committed_view() =~= Seq::<ShapeView>::empty());
                    assert(self.store.redo_view() =~= Seq::<ShapeView>::empty());
                    assert(final(self)@ =~= (EditorView {
                        image_width: w as int,
                        image_height: h as int,
                        has_image: true,
                        committed: Seq::empty(),
                        redo: Seq::empty(),
                        selected: None,
                        ..old(self)@
                    }));
                }
            },
            None => {
                proof {
                    assert(final(self)@ =~= old(self)@);
                }
            },
        }
    }

    /// Switch tools, committing any active text session first; the selection
    /// is always cleared.
    pub fn set_tool_type(&mut self, tool_type: ToolType)
        requires
            old(self)@.wf(),
        ensures
            final(self)@.wf(),
            ({
                let after = if old(self)@.text_active {
                    spec_finish_text(old(self)@)
                } else {
                    old(self)@
                };
                final(self)@ == (EditorView {
                    tool: Tool { tool_type, ..after.tool },
                    selected: None,
                    ..after
                })
            }),
    {
        if self.text_input_active {
            self.finish_text_input();
        }
        self.tool.tool_type = tool_type;
        self.selected_index = None;
        proof {
            let after = if old(self)@.text_active {
                spec_finish_text(old(self)@)
            } else {
                old(self)@
            };
            assert(final(self)@ =~= (EditorView {
                tool: Tool { tool_type, ..after.tool },
                selected: None,
                ..after
            }));
        }
    }

    /// Set the paint colour for future shapes.
    pub fn set_color(&mut self, color: Color)
        requires
            old(self)@.wf(),
            color.wf(),
        ensures
            final(self)@.wf(),
            final(self)@ == (EditorView { tool: Tool { color, ..old(self)@.tool }, ..old(self)@ }),
    {
        self.tool.color = color;
        proof {
            assert(final(self)@ =~= (EditorView {
                tool: Tool { color, ..old(self)@.tool },
                ..old(self)@
            }));
        }
    }

    /// Set the stroke width for future shapes.
    pub fn set_stroke_width(&mut self, width: i64)
        requires
            old(self)@.wf(),
            0 <= width <= CANVAS_LIMIT,
        ensures
            final(self)@.wf(),
            final(self)@ == (EditorView {
                tool: Tool { stroke_width: width, ..old(self)@.tool },
                ..old(self)@
            }),
    {
        self.tool.stroke_width = width;
        proof {
            assert(final(self)@ =~= (EditorView {
                tool: Tool { stroke_width: width, ..old(self)@.tool },
                ..old(self)@
            }));
        }
    }

    /// Set the fill flag for future rectangles and ellipses.
    pub fn set_filled(&mut self, filled: bool)
        requires
            old(self)@.wf(),
        ensures
            final(self)@.wf(),
            final(self)@ == (EditorView { tool: Tool { filled, ..old(self)@.tool }, ..old(self)@ }),
    {
        self.tool.filled = filled;
        proof {
            assert(final(self)@ =~= (EditorView {
                tool: Tool { filled, ..old(self)@.tool },
                ..old(self)@
            }));
        }
    }

    /// Move every committed shape into the redo buffer (keeping their
    /// relative order) and clear the selection.
    pub fn clear_shapes(&mut self)
        requires
            old(self)@.wf(),
        ensures
            final(self)@.wf(),
            final(self)@ == (EditorView {
                committed: Seq::empty(),
                redo: old(self)@.redo + old(self)@.committed,
                selected: None,
                ..old(self)@
            }),
    {
        self.store.clear();
        self.selected_index = None;
        proof {
            assert(final(self)@ =~= (EditorView {
                committed: Seq::empty(),
                redo: old(self)@.redo + old(self)@.committed,
                selected: None,
                ..old(self)@
            }));
        }
    }

    /// Undo: move the most recently committed shape onto the redo buffer (a
    /// silent no-op with nothing committed) and clear the selection.
    pub fn undo(&mut self)
        requires
            old(self)@.wf(),
        ensures
            final(self)@.wf(),
            ({
                let (c, r) = spec_store_pop_undo(old(self)@.committed, old(self)@.redo);
                final(self)@ == (EditorView { committed: c, redo: r, selected: None, ..old(self)@ })
            }),
    {
        let _ = self.store.pop_undo();
        self.selected_index = None;
        proof {
            let (c, r) = spec_store_pop_undo(old(self)@.committed, old(self)@.redo);
            assert(final(self)@ =~= (EditorView {
                committed: c,
                redo: r,
                selected: None,
                ..old(self)@
            }));
        }
    }

    /// Redo: move the top of the redo buffer back to the end of the
    /// committed sequence (a silent no-op with an empty buffer).
    pub fn redo(&mut self)
        requires
            old(self)@.wf(),
        ensures
            final(self)@.wf(),
            ({
                let (c, r) = spec_store_pop_redo(old(self)@.committed, old(self)@.redo);
                final(self)@ == (EditorView { committed: c, redo: r, ..old(self)@ })
            }),
    {
        let _ = self.store.pop_redo();
        proof {
            let (c, r) = spec_store_pop_redo(old(self)@.committed, old(self)@.redo);
            assert(final(self)@ =~= (EditorView { committed: c, redo: r, ..old(self)@ }));
        }
    }

    /// Delete the selected shape: it moves onto the redo buffer (without
    /// clearing the buffer) and the selection is cleared; without a
    /// selection nothing changes.
    pub fn delete_selected(&mut self)
        requires
            old(self)@.wf(),
        ensures
            final(self)@.wf(),
            ({
                match old(self)@.selected {
                    Some(idx) => final(self)@ == (EditorView {
                        committed: old(self)@.committed.remove(idx as int),
                        redo: old(self)@.redo.push(old(self)@.committed[idx as int]),
                        selected: None,
                        ..old(self)@
                    }),
                    None => final(self)@ == old(self)@,
                }
            }),
    {
        match self.selected_index {
            Some(idx) => {
                if idx < self.store.len() {
                    self.store.remove(idx);
                    self.selected_index = None;
                    proof {
                        assert(final(self)@ =~= (EditorView {
                            committed: old(self)@.committed.remove(idx as int),
                            redo: old(self)@.redo.push(old(self)@.committed[idx as int]),
                            selected: None,
                            ..old(self)@
                        }));
                    }
                }
            },
            None => {
                proof {
                    assert(final(self)@ =~= old(self)@);
                }
            },
        }
    }

    /// Commit the active text session, if any: an anchored, non-empty buffer
    /// becomes a new text shape and discards the redo history; the session
    /// fields are reset either way.
    pub fn finish_text_input(&mut self)
        requires
            old(self)@.wf(),
        ensures
            final(self)@.wf(),
            final(self)@ == spec_finish_text(old(self)@),
    {
        match self.text_input_pos {
            Some((x, y)) => {
                self.text_input_pos = None;
                if self.text_input_buffer.len() > 0 {
                    let mut text: Vec<char> = Vec::new();
                    core::mem::swap(&mut text, &mut self.text_input_buffer);
                    let shape = self.tool.create_text_shape(x, y, text);
                    self.store.push(shape);
                } else {
                    self.text_input_buffer = Vec::new();
                }
            },
            None => {
                self.text_input_buffer = Vec::new();
            },
        }
        self.text_input_active = false;
        proof {
            assert(final(self)@ =~= spec_finish_text(old(self)@));
        }
    }

    /// Cancel the active text session, discarding the buffer.
    pub fn cancel_text_input(&mut self)
        requires
            old(self)@.wf(),
        ensures
            final(self)@.wf(),
            final(self)@ == (EditorView {
                text_active: false,
                text_pos: None,
                text_buffer: Seq::empty(),
                ..old(self)@
            }),
    {
        self.text_input_active = false;
        self.text_input_pos = None;
        self.text_input_buffer = Vec::new();
        proof {
            assert(final(self)@ =~= (EditorView {
                text_active: false,
                text_pos: None,
                text_buffer: Seq::empty(),
                ..old(self)@
            }));
        }
    }
}


/// Divide a device-space value by the zoom fraction `num / den`, truncating
/// toward zero as the host's coordinate mapping does.
pub open spec fn spec_to_canvas(v: int, num: int, den: int) -> int {
    if v >= 0 {
        (v * den) / num
    } else {
        -(((-v) * den) / num)
    }
}

fn div_zoom(v: i64, num: u64, den: u64) -> (r: i64)
    requires
        1 <= num <= 0x10000000000,
        1 <= den <= 0x20000000000,
        den <= 10 * num,
        -DEVICE_MAX <= v <= DEVICE_MAX,
    ensures
        r == spec_to_canvas(v as int, num as int, den as int),
        event_coord(r as int),
        -10 * DEVICE_MAX <= r <= 10 * DEVICE_MAX,
{
    let a: u64 = if v >= 0 {
        v as u64
    } else {
        (-v) as u64
    };
    proof {
        lemma_mul_bound(a as int, den as int, DEVICE_MAX as int, 0x20000000000);
    }
    let prod: u128 = a as u128 * den as u128;
    let q: u128 = prod / num as u128;
    proof {
        crate::geom::lemma_mul_mono(a as int, den as int, 10 * num);
        assert(a as int * (10 * num as int) == (10 * a as int) * num) by (nonlinear_arith);
        vstd::arithmetic::div_mod::lemma_div_is_ordered(
            prod as int,
            (10 * a as int) * num,
            num as int,
        );
        vstd::arithmetic::div_mod::lemma_div_multiples_vanish(10 * a as int, num as int);
        assert((num as int) * (10 * a as int) == (10 * a as int) * (num as int))
            by (nonlinear_arith);
        vstd::arithmetic::div_mod::lemma_div_pos_is_pos(prod as int, num as int);
    }
    if v >= 0 {
        q as i64
    } else {
        -(q as i64)
    }
}

/// Scale an image dimension up by the zoom fraction, truncating.
fn scale_dim(dim: i64, num: u64, den: u64) -> (r: i64)
    requires
        1 <= num <= 0x10000000000,
        1 <= den <= 0x20000000000,
        num <= 5 * den,
        0 <= dim <= 0x7fffffff,
    ensures
        r == (dim as int * num as int) / (den as int),
        0 <= r <= 5 * dim,
{
    proof {
        lemma_mul_bound(dim as int, num as int, 0x7fffffff, 0x10000000000);
    }
    let prod: u128 = dim as u128 * num as u128;
    let q: u128 = prod / den as u128;
    proof {
        crate::geom::lemma_mul_mono(dim as int, num as int, 5 * den);
        assert(dim as int * (5 * den as int) == (5 * dim as int) * den) by (nonlinear_arith);
        vstd::arithmetic::div_mod::lemma_div_is_ordered(
            prod as int,
            (5 * dim as int) * den,
            den as int,
        );
        vstd::arithmetic::div_mod::lemma_div_multiples_vanish(5 * dim as int, den as int);
        assert((den as int) * (5 * dim as int) == (5 * dim as int) * (den as int))
            by (nonlinear_arith);
        vstd::arithmetic::div_mod::lemma_div_pos_is_pos(prod as int, den as int);
    }
    q as i64
}

impl EditorCanvas {
    /// Map a device-space point to canvas space by dividing by the zoom
    /// factor; this is the only place device coordinates are converted.
    pub fn screen_to_canvas(&self, x: i64, y: i64) -> (r: (i64, i64))
        requires
            self@.wf(),
            -DEVICE_MAX <= x <= DEVICE_MAX,
            -DEVICE_MAX <= y <= DEVICE_MAX,
        ensures
            r.0 == spec_to_canvas(x as int, zoom_num(self@.zoom), zoom_den(self@.zoom)),
            r.1 == spec_to_canvas(y as int, zoom_num(self@.zoom), zoom_den(self@.zoom)),
            event_coord(r.0 as int),
            event_coord(r.1 as int),
    {
        proof {
            crate::zoom::lemma_zoom_range(self@.zoom);
        }
        let (num, den) = self.zoom.parts();
        (div_zoom(x, num, den), div_zoom(y, num, den))
    }

    /// The size of the zoomed content the hosting viewport should reserve:
    /// the image pixel size scaled by the zoom factor.
    pub fn content_size(&self) -> (r: (i64, i64))
        requires
            self@.wf(),
        ensures
            r.0 == (self@.image_width * zoom_num(self@.zoom)) / (zoom_den(self@.zoom)),
            r.1 == (self@.image_height * zoom_num(self@.zoom)) / zoom_den(self@.zoom),
            0 <= r.0 <= 5 * self@.image_width,
            0 <= r.1 <= 5 * self@.image_height,
    {
        proof {
            crate::zoom::lemma_zoom_range(self@.zoom);
        }
        let (num, den) = self.zoom.parts();
        (scale_dim(self.image_width, num, den), scale_dim(self.image_height, num, den))
    }

    /// The exact zoom fraction (numerator, denominator).
    pub fn get_zoom(&self) -> (r: (u64, u64))
        requires
            self@.wf(),
        ensures
            r.0 == zoom_num(self@.zoom),
            r.1 == zoom_den(self@.zoom),
    {
        self.zoom.parts()
    }

    /// Zoom in one step (times five quarters, clamped at five).
    pub fn zoom_in(&mut self)
        requires
            old(self)@.wf(),
        ensures
            final(self)@.wf(),
            final(self)@ == (EditorView { zoom: final(self)@.zoom, ..old(self)@ }),
            crate::zoom::zoom_in_rel(old(self)@.zoom, final(self)@.zoom),
    {
        self.zoom.zoom_in();
        proof {
            assert(final(self)@ =~= (EditorView { zoom: final(self)@.zoom, ..old(self)@ }));
        }
    }

    /// Zoom out one step (times four fifths, clamped at one tenth).
    pub fn zoom_out(&mut self)
        requires
            old(self)@.wf(),
        ensures
            final(self)@.wf(),
            final(self)@ == (EditorView { zoom: final(self)@.zoom, ..old(self)@ }),
            crate::zoom::zoom_out_rel(old(self)@.zoom, final(self)@.zoom),
    {
        self.zoom.zoom_out();
        proof {
            assert(final(self)@ =~= (EditorView { zoom: final(self)@.zoom, ..old(self)@ }));
        }
    }

    /// Back to the unit zoom factor.
    pub fn zoom_reset(&mut self)
        requires
            old(self)@.wf(),
        ensures
            final(self)@.wf(),
            final(self)@ == (EditorView { zoom: ZoomLevel::FromUnit(0i32), ..old(self)@ }),
    {
        self.zoom.reset();
        proof {
            assert(final(self)@ =~= (EditorView { zoom: ZoomLevel::FromUnit(0i32), ..old(self)@ }));
        }
    }
}

/// The topmost committed shape hit by the query point: indices later in the
/// sequence are on top and win.
pub open spec fn spec_hit_index(shapes: Seq<ShapeView>, x: int, y: int) -> Option<int>
    decreases shapes.len(),
{
    if shapes.len() == 0 {
        None
    } else if crate::shapes::spec_contains(shapes.last(), x, y) {
        Some(shapes.len() - 1)
    } else {
        spec_hit_index(shapes.drop_last(), x, y)
    }
}

/// Which handle of the selected shape the (already unrotated) probe point
/// grabs: the rotation knob 25 units above the top edge wins over the
/// corners, which are tried top-left, top-right, bottom-left, bottom-right;
/// every handle extends 8 canvas units in each direction.
pub open spec fn spec_handle_at(s: ShapeView, px: int, py: int) -> HandleType {
    let (mnx, mny, mxx, mxy) = crate::shapes::spec_bounds(s);
    if -16 <= 2 * px - (mnx + mxx) <= 16 && -8 <= py - (mny - 25) <= 8 {
        HandleType::Rotation
    } else if -8 <= px - mnx <= 8 && -8 <= py - mny <= 8 {
        HandleType::TopLeft
    } else if -8 <= px - mxx <= 8 && -8 <= py - mny <= 8 {
        HandleType::TopRight
    } else if -8 <= px - mnx <= 8 && -8 <= py - mxy <= 8 {
        HandleType::BottomLeft
    } else if -8 <= px - mxx <= 8 && -8 <= py - mxy <= 8 {
        HandleType::BottomRight
    } else {
        HandleType::NoHandle
    }
}

/// The handle grabbed at the probe point, or none when nothing is selected.
pub open spec fn spec_hit_handle(v: EditorView, px: int, py: int) -> HandleType {
    match v.selected {
        Some(i) => if i < v.committed.len() {
            spec_handle_at(v.committed[i as int], px, py)
        } else {
            HandleType::NoHandle
        },
        None => HandleType::NoHandle,
    }
}

/// What the hit index means: when it exists it names a shape that contains
/// the point with nothing above it containing the point too, and when it
/// does not, no committed shape contains the point.
pub proof fn lemma_hit_index_topmost(shapes: Seq<ShapeView>, x: int, y: int)
    ensures
        ({
            match spec_hit_index(shapes, x, y) {
                Some(i) => 0 <= i < shapes.len() && crate::shapes::spec_contains(shapes[i], x, y)
                    && forall|j: int|
                    i < j < shapes.len() ==> !crate::shapes::spec_contains(#[trigger] shapes[j], x, y),
                None => forall|j: int|
                    0 <= j < shapes.len() ==> !crate::shapes::spec_contains(#[trigger] shapes[j], x, y),
            }
        }),
    decreases shapes.len(),
{
    if shapes.len() > 0 && !crate::shapes::spec_contains(shapes.last(), x, y) {
        lemma_hit_index_topmost(shapes.drop_last(), x, y);
        assert forall|j: int| 0 <= j < shapes.len() - 1 implies shapes.drop_last()[j] == shapes[j] by {}
    }
}

impl EditorCanvas {
    /// Find the topmost committed shape that contains the point.
    pub fn hit_test(&self, x: i64, y: i64) -> (r: Option<usize>)
        requires
            self@.wf(),
            event_coord(x as int),
            event_coord(y as int),
        ensures
            ({
                let h = spec_hit_index(self@.committed, x as int, y as int);
                match r {
                    Some(i) => h == Some(i as int) && i < self@.committed.len(),
                    None => h is None,
                }
            }),
    {
        let ghost all = self@.committed;
        let mut i = self.store.len();
        proof {
            assert(all.take(i as int) =~= all);
        }
        while i > 0
            invariant
                self@.wf(),
                all == self@.committed,
                event_coord(x as int),
                event_coord(y as int),
                i <= all.len(),
                spec_hit_index(all, x as int, y as int) == spec_hit_index(
                    all.take(i as int),
                    x as int,
                    y as int,
                ),
            decreases i,
        {
            i = i - 1;
            let shape = self.store.shape_at(i);
            proof {
                assert(all.take(i + 1).last() == all[i as int]);
                assert(all.take(i + 1).drop_last() =~= all.take(i as int));
            }
            if shape.contains_point(x, y) {
                return Some(i);
            }
        }
        proof {
            assert(all.take(0) =~= Seq::<ShapeView>::empty());
        }
        None
    }

    /// Which handle of the selected shape the probe point grabs. The probe
    /// point must already be mapped into the shape's unrotated frame when
    /// the shape carries a rotation.
    pub fn hit_test_handle(&self, px: i64, py: i64) -> (r: HandleType)
        requires
            self@.wf(),
            event_coord(px as int),
            event_coord(py as int),
        ensures
            r == spec_hit_handle(self@, px as int, py as int),
    {
        let idx = match self.selected_index {
            Some(idx) => idx,
            None => {
                return HandleType::NoHandle;
            },
        };
        if idx >= self.store.len() {
            return HandleType::NoHandle;
        }
        let shape = self.store.shape_at(idx);
        let (mnx, mny, mxx, mxy) = shape.bounds();
        let cx2 = mnx + mxx;
        let dr = 2 * px - cx2;
        let dy_rot = py - (mny - 25);
        if -16 <= dr && dr <= 16 && -8 <= dy_rot && dy_rot <= 8 {
            return HandleType::Rotation;
        }
        if -8 <= px - mnx && px - mnx <= 8 && -8 <= py - mny && py - mny <= 8 {
            return HandleType::TopLeft;
        }
        if -8 <= px - mxx && px - mxx <= 8 && -8 <= py - mny && py - mny <= 8 {
            return HandleType::TopRight;
        }
        if -8 <= px - mnx && px - mnx <= 8 && -8 <= py - mxy && py - mxy <= 8 {
            return HandleType::BottomLeft;
        }
        if -8 <= px - mxx && px - mxx <= 8 && -8 <= py - mxy && py - mxy <= 8 {
            return HandleType::BottomRight;
        }
        HandleType::NoHandle
    }

    /// The rotation frame of the selected shape — twice its bounds centre
    /// and its rotation angle — for mapping probe points into its unrotated
    /// frame outside the library.
    pub fn selection_frame(&self) -> (r: Option<(i64, i64, i64)>)
        requires
            self@.wf(),
        ensures
            (r is Some) == (self@.selected is Some),
            ({
                match (self@.selected, r) {
                    (Some(i), Some(f)) => {
                        let (mnx, mny, mxx, mxy) = crate::shapes::spec_bounds(
                            self@.committed[i as int],
                        );
                        f.0 == mnx + mxx && f.1 == mny + mxy && f.2 == self@.committed[
                            i as int
                        ].rotation
                    },
                    (None, None) => true,
                    _ => false,
                }
            }),
    {
        match self.selected_index {
            Some(idx) => {
                let shape = self.store.shape_at(idx);
                let (cx2, cy2) = shape.center_doubled();
                Some((cx2, cy2, shape.rotation))
            },
            None => None,
        }
    }
}


/// A key event, as the host maps it: commit, cancel, erase, or a character.
#[derive(Clone, Copy, PartialEq, Eq, Structural, Debug)]
pub enum KeyInput {
    Enter,
    Escape,
    Backspace,
    Character(char),
}

/// Whether the character is a Unicode control character (the C0 range, the
/// delete character, or the C1 range); control characters are never appended
/// to a text buffer.
pub open spec fn spec_is_control(c: char) -> bool {
    c as u32 <= 0x1f || (0x7f <= c as u32 && c as u32 <= 0x9f)
}

fn is_control_char(c: char) -> (r: bool)
    ensures
        r == spec_is_control(c),
{
    let u = c as u32;
    u <= 0x1f || (0x7f <= u && u <= 0x9f)
}

/// Clamp a wide intermediate to the event-coordinate range.
pub open spec fn spec_clamp_event(v: int) -> int {
    if v < -(COORD_MAX as int) {
        -(COORD_MAX as int)
    } else if v > COORD_MAX as int {
        COORD_MAX as int
    } else {
        v
    }
}

fn clamp_event(v: i128) -> (r: i64)
    ensures
        r == spec_clamp_event(v as int),
        event_coord(r as int),
{
    if v < -COORD_MAX as i128 {
        -COORD_MAX
    } else if v > COORD_MAX as i128 {
        COORD_MAX
    } else {
        v as i64
    }
}

/// The freehand stroke started by a pointer-down at `(x, y)`: a one-point
/// polyline carrying the current paint attributes.
pub open spec fn spec_start_freehand(t: Tool, x: int, y: int) -> ShapeView {
    ShapeView {
        shape_type: ShapeType::FreeHand,
        start_x: x,
        start_y: y,
        end_x: x,
        end_y: y,
        color: t.color,
        stroke_width: t.stroke_width as int,
        filled: false,
        points: seq![(x, y)],
        text: Seq::empty(),
        font_size: 20,
        rotation: 0,
    }
}

/// Pointer-down at canvas point `(x, y)`. An active text session is
/// committed first; with the text tool a fresh session then opens at the
/// click point, and with any other tool nothing else happens. Otherwise:
/// with the select tool, a handle of the selected shape (probed at the
/// unrotated point `(px, py)`) starts a resize, rotate or move drag;
/// otherwise the topmost hit shape is selected
/// and a move drag starts; otherwise the selection is cleared. The text tool
/// opens a text session. A drawing tool discards the redo history and starts
/// an in-progress shape.
pub open spec fn spec_on_press(v: EditorView, x: int, y: int, px: int, py: int) -> EditorView {
    if v.text_active {
        let committed = spec_finish_text(v);
        if v.tool.tool_type == ToolType::Text {
            EditorView {
                text_active: true,
                text_pos: Some((x, y)),
                text_buffer: Seq::empty(),
                ..committed
            }
        } else {
            committed
        }
    } else {
        match v.tool.tool_type {
            ToolType::Select => {
                let handle = spec_hit_handle(v, px, py);
                if handle != HandleType::NoHandle {
                    let with_rot = if handle == HandleType::Rotation {
                        match v.selected {
                            Some(i) => EditorView {
                                initial_rotation: v.committed[i as int].rotation,
                                ..v
                            },
                            None => v,
                        }
                    } else {
                        v
                    };
                    EditorView {
                        active_handle: handle,
                        dragging: true,
                        drag_start_x: x,
                        drag_start_y: y,
                        ..with_rot
                    }
                } else {
                    match spec_hit_index(v.committed, x, y) {
                        Some(idx) => EditorView {
                            selected: Some(idx as usize),
                            active_handle: HandleType::NoHandle,
                            dragging: true,
                            drag_start_x: x,
                            drag_start_y: y,
                            ..v
                        },
                        None => EditorView {
                            selected: None,
                            active_handle: HandleType::NoHandle,
                            ..v
                        },
                    }
                }
            },
            ToolType::Text => EditorView {
                text_active: true,
                text_pos: Some((x, y)),
                text_buffer: Seq::empty(),
                ..v
            },
            ToolType::FreeHand => EditorView {
                drawing: true,
                redo: Seq::empty(),
                current: Some(spec_start_freehand(v.tool, x, y)),
                ..v
            },
            _ => EditorView {
                drawing: true,
                redo: Seq::empty(),
                current: crate::tools::spec_create_shape(v.tool, x, y, x, y),
                ..v
            },
        }
    }
}

/// Pointer motion while drawing: a freehand stroke appends the point, an
/// in-progress shape of any other kind follows with its free corner.
pub open spec fn spec_on_motion(v: EditorView, x: int, y: int) -> EditorView {
    if !v.drawing {
        v
    } else {
        match v.current {
            Some(s) => if s.shape_type == ShapeType::FreeHand {
                EditorView { current: Some(ShapeView { points: s.points.push((x, y)), ..s }), ..v }
            } else {
                EditorView { current: Some(ShapeView { end_x: x, end_y: y, ..s }), ..v }
            },
            None => v,
        }
    }
}

/// Pointer-up while drawing: the in-progress shape is finalised at the
/// release point and committed (discarding the redo history).
pub open spec fn spec_on_release(v: EditorView, x: int, y: int) -> EditorView {
    if !v.drawing {
        v
    } else {
        match v.current {
            Some(s) => EditorView {
                drawing: false,
                current: None,
                committed: v.committed.push(ShapeView { end_x: x, end_y: y, ..s }),
                redo: Seq::empty(),
                ..v
            },
            None => EditorView { drawing: false, ..v },
        }
    }
}

/// Drag-begin with the select tool and a selection: a move session starts at
/// the canvas point with a zero live offset.
pub open spec fn spec_on_drag_begin(v: EditorView, x: int, y: int) -> EditorView {
    if v.tool.tool_type == ToolType::Select {
        match v.selected {
            Some(i) => if i < v.committed.len() {
                EditorView {
                    dragging: true,
                    drag_start_x: x,
                    drag_start_y: y,
                    drag_offset_x: 0,
                    drag_offset_y: 0,
                    ..v
                }
            } else {
                v
            },
            None => v,
        }
    } else {
        v
    }
}

pub open spec fn spec_corner_of(h: HandleType) -> u8 {
    match h {
        HandleType::TopLeft => 0,
        HandleType::TopRight => 1,
        HandleType::BottomLeft => 2,
        HandleType::BottomRight => 3,
        _ => 0,
    }
}

/// Drag-update with canvas-space offsets `(ox, oy)`. A plain move only
/// records the live offset (rendering previews it); a corner handle resizes
/// the selected shape immediately, at the drag start plus the offset,
/// clamped to the event range; the rotation handle changes nothing here —
/// the rotation angle is applied separately, once the host has computed it.
pub open spec fn spec_on_drag_update(v: EditorView, ox: int, oy: int) -> EditorView {
    if !v.dragging {
        v
    } else {
        match v.selected {
            None => v,
            Some(idx) => if idx >= v.committed.len() {
                v
            } else {
                match v.active_handle {
                    HandleType::NoHandle => EditorView { drag_offset_x: ox, drag_offset_y: oy, ..v },
                    HandleType::Rotation => v,
                    h => EditorView {
                        committed: v.committed.update(
                            idx as int,
                            crate::shapes::spec_resize(
                                v.committed[idx as int],
                                spec_corner_of(h),
                                spec_clamp_event(v.drag_start_x + ox),
                                spec_clamp_event(v.drag_start_y + oy),
                            ),
                        ),
                        ..v
                    },
                }
            },
        }
    }
}

/// A rotation drag is in flight: the host must compute the absolute angle
/// from the drag point relative to the shape's centre and hand it back.
pub open spec fn spec_wants_rotation(v: EditorView) -> bool {
    &&& v.dragging
    &&& v.active_handle == HandleType::Rotation
    &&& match v.selected {
        Some(i) => i < v.committed.len(),
        None => false,
    }
}

/// What the host needs to compute a live rotation angle: twice the selected
/// shape's bounds centre, and the current drag point in canvas space.
#[derive(Clone, Copy, PartialEq, Eq, Structural, Debug)]
pub struct RotationQuery {
    pub center_x2: i64,
    pub center_y2: i64,
    pub x: i64,
    pub y: i64,
}

/// Drag-end with canvas-space offsets: a plain move commits the accumulated
/// offset as a translation of the selected shape; a handle drag has already
/// applied its effect live; the drag session fields are reset.
pub open spec fn spec_on_drag_end(v: EditorView, ox: int, oy: int) -> EditorView {
    if !v.dragging {
        v
    } else {
        let base = EditorView {
            dragging: false,
            active_handle: HandleType::NoHandle,
            drag_offset_x: 0,
            drag_offset_y: 0,
            ..v
        };
        if v.active_handle == HandleType::NoHandle {
            match v.selected {
                Some(idx) => if idx < v.committed.len() {
                    EditorView {
                        committed: v.committed.update(
                            idx as int,
                            crate::shapes::spec_translate(v.committed[idx as int], ox, oy),
                        ),
                        ..base
                    }
                } else {
                    base
                },
                None => base,
            }
        } else {
            base
        }
    }
}

/// Key input. Outside a text session keys are not handled. Enter commits the
/// session, Escape discards it, Backspace erases the last character, and any
/// other printable character is appended (control characters are ignored,
/// and the buffer stops growing at its size limit).
pub open spec fn spec_on_key(v: EditorView, key: KeyInput) -> EditorView {
    if !v.text_active {
        v
    } else {
        match key {
            KeyInput::Enter => spec_finish_text(v),
            KeyInput::Escape => EditorView {
                text_active: false,
                text_pos: None,
                text_buffer: Seq::empty(),
                ..v
            },
            KeyInput::Backspace => if v.text_buffer.len() > 0 {
                EditorView { text_buffer: v.text_buffer.drop_last(), ..v }
            } else {
                v
            },
            KeyInput::Character(c) => if !spec_is_control(c) && v.text_buffer.len() < TEXT_LIMIT
                as int {
                EditorView { text_buffer: v.text_buffer.push(c), ..v }
            } else {
                v
            },
        }
    }
}

impl EditorCanvas {
    /// Handle a pointer-down at canvas point `(x, y)`; `(probe_x, probe_y)`
    /// is the same point mapped into the selected shape's unrotated frame
    /// (it equals `(x, y)` when nothing is selected or nothing is rotated).
    pub fn on_press(&mut self, x: i64, y: i64, probe_x: i64, probe_y: i64)
        requires
            old(self)@.wf(),
            event_coord(x as int),
            event_coord(y as int),
            event_coord(probe_x as int),
            event_coord(probe_y as int),
        ensures
            final(self)@.wf(),
            final(self)@ == spec_on_press(old(self)@, x as int, y as int, probe_x as int, probe_y as int),
    {
        if self.text_input_active {
            self.finish_text_input();
            if self.tool.tool_type == ToolType::Text {
                self.text_input_active = true;
                self.text_input_pos = Some((x, y));
                self.text_input_buffer = Vec::new();
            }
            proof {
                assert(final(self)@ =~= spec_on_press(
                    old(self)@,
                    x as int,
                    y as int,
                    probe_x as int,
                    probe_y as int,
                ));
            }
            return ;
        }
        match self.tool.tool_type {
            ToolType::Select => {
                let handle = self.hit_test_handle(probe_x, probe_y);
                if handle != HandleType::NoHandle {
                    if handle == HandleType::Rotation {
                        if let Some(idx) = self.selected_index {
                            if idx < self.store.len() {
                                self.initial_rotation = self.store.shape_at(idx).rotation;
                            }
                        }
                    }
                    self.active_handle = handle;
                    self.dragging = true;
                    self.drag_start_x = x;
                    self.drag_start_y = y;
                } else {
                    match self.hit_test(x, y) {
                        Some(idx) => {
                            self.selected_index = Some(idx);
                            self.active_handle = HandleType::NoHandle;
                            self.dragging = true;
                            self.drag_start_x = x;
                            self.drag_start_y = y;
                        },
                        None => {
                            self.selected_index = None;
                            self.active_handle = HandleType::NoHandle;
                        },
                    }
                }
                proof {
                    assert(final(self)@ =~= spec_on_press(
                        old(self)@,
                        x as int,
                        y as int,
                        probe_x as int,
                        probe_y as int,
                    ));
                }
            },
            ToolType::Text => {
                self.text_input_active = true;
                self.text_input_pos = Some((x, y));
                self.text_input_buffer = Vec::new();
                proof {
                    assert(final(self)@ =~= spec_on_press(
                        old(self)@,
                        x as int,
                        y as int,
                        probe_x as int,
                        probe_y as int,
                    ));
                }
            },
            ToolType::FreeHand => {
                self.drawing = true;
                self.store.clear_redo();
                let mut points: Vec<(i64, i64)> = Vec::new();
                points.push((x, y));
                let shape = Shape {
                    shape_type: ShapeType::FreeHand,
                    start_x: x,
                    start_y: y,
                    end_x: x,
                    end_y: y,
                    color: self.tool.color,
                    stroke_width: self.tool.stroke_width,
                    filled: false,
                    points,
                    text: Vec::new(),
                    font_size: 20,
                    rotation: 0,
                };
                proof {
                    assert(shape@.points =~= seq![(x as int, y as int)]);
                    assert(shape@ =~= spec_start_freehand(old(self)@.tool, x as int, y as int));
                }
                self.current_shape = Some(shape);
                proof {
                    assert(final(self)@ =~= spec_on_press(
                        old(self)@,
                        x as int,
                        y as int,
                        probe_x as int,
                        probe_y as int,
                    ));
                }
            },
            _ => {
                self.drawing = true;
                self.store.clear_redo();
                if let Some(shape) = self.tool.create_shape(x, y, x, y) {
                    self.current_shape = Some(shape);
                }
                proof {
                    assert(final(self)@ =~= spec_on_press(
                        old(self)@,
                        x as int,
                        y as int,
                        probe_x as int,
                        probe_y as int,
                    ));
                }
            },
        }
    }

    /// Handle pointer motion at canvas point `(x, y)` while drawing.
    pub fn on_motion(&mut self, x: i64, y: i64)
        requires
            old(self)@.wf(),
            event_coord(x as int),
            event_coord(y as int),
        ensures
            final(self)@.wf(),
            final(self)@ == spec_on_motion(old(self)@, x as int, y as int),
    {
        if !self.drawing {
            return ;
        }
        match &mut self.current_shape {
            Some(shape) => {
                if shape.shape_type == ShapeType::FreeHand {
                    shape.add_point(x, y);
                } else {
                    shape.end_x = x;
                    shape.end_y = y;
                }
            },
            None => {},
        }
        proof {
            assert(final(self)@ =~= spec_on_motion(old(self)@, x as int, y as int));
        }
    }

    /// Handle pointer-up at canvas point `(x, y)`: commit the in-progress
    /// shape with its free corner at the release point.
    pub fn on_release(&mut self, x: i64, y: i64)
        requires
            old(self)@.wf(),
            event_coord(x as int),
            event_coord(y as int),
        ensures
            final(self)@.wf(),
            final(self)@ == spec_on_release(old(self)@, x as int, y as int),
    {
        if !self.drawing {
            return ;
        }
        self.drawing = false;
        let mut taken: Option<Shape> = None;
        core::mem::swap(&mut taken, &mut self.current_shape);
        match taken {
            Some(mut shape) => {
                shape.end_x = x;
                shape.end_y = y;
                self.store.push(shape);
            },
            None => {},
        }
        proof {
            assert(final(self)@ =~= spec_on_release(old(self)@, x as int, y as int));
        }
    }

    /// Handle a drag-begin at canvas point `(x, y)` (select tool only).
    pub fn on_drag_begin(&mut self, x: i64, y: i64)
        requires
            old(self)@.wf(),
            event_coord(x as int),
            event_coord(y as int),
        ensures
            final(self)@.wf(),
            final(self)@ == spec_on_drag_begin(old(self)@, x as int, y as int),
    {
        if self.tool.tool_type == ToolType::Select {
            if let Some(idx) = self.selected_index {
                if idx < self.store.len() {
                    self.dragging = true;
                    self.drag_start_x = x;
                    self.drag_start_y = y;
                    self.drag_offset_x = 0;
                    self.drag_offset_y = 0;
                }
            }
        }
        proof {
            assert(final(self)@ =~= spec_on_drag_begin(old(self)@, x as int, y as int));
        }
    }

    /// Handle a drag-update with device-space offsets. The offsets are
    /// divided by the zoom factor; a corner drag resizes the selected shape
    /// immediately; a rotation drag returns the data the host needs to
    /// compute the absolute angle (to be handed back to `apply_rotation`).
    pub fn on_drag_update(&mut self, offset_x: i64, offset_y: i64) -> (r: Option<RotationQuery>)
        requires
            old(self)@.wf(),
            -DEVICE_MAX <= offset_x <= DEVICE_MAX,
            -DEVICE_MAX <= offset_y <= DEVICE_MAX,
        ensures
            final(self)@.wf(),
            ({
                let ox = spec_to_canvas(offset_x as int, zoom_num(old(self)@.zoom), zoom_den(old(self)@.zoom));
                let oy = spec_to_canvas(offset_y as int, zoom_num(old(self)@.zoom), zoom_den(old(self)@.zoom));
                &&& final(self)@ == spec_on_drag_update(old(self)@, ox, oy)
                &&& (r is Some) == spec_wants_rotation(old(self)@)
                &&& match (r, old(self)@.selected) {
                    (Some(q), Some(idx)) => {
                        let (mnx, mny, mxx, mxy) = crate::shapes::spec_bounds(
                            old(self)@.committed[idx as int],
                        );
                        &&& q.center_x2 == mnx + mxx
                        &&& q.center_y2 == mny + mxy
                        &&& q.x == spec_clamp_event(old(self)@.drag_start_x + ox)
                        &&& q.y == spec_clamp_event(old(self)@.drag_start_y + oy)
                    },
                    (Some(_), None) => false,
                    (None, _) => true,
                }
            }),
    {
        let (ox, oy) = self.screen_to_canvas(offset_x, offset_y);
        if !self.dragging {
            proof {
                assert(final(self)@ =~= old(self)@);
            }
            return None;
        }
        let idx = match self.selected_index {
            Some(idx) => idx,
            None => {
                proof {
                    assert(final(self)@ =~= old(self)@);
                }
                return None;
            },
        };
        if idx >= self.store.len() {
            proof {
                assert(final(self)@ =~= old(self)@);
            }
            return None;
        }
        let current_x = clamp_event(self.drag_start_x as i128 + ox as i128);
        let current_y = clamp_event(self.drag_start_y as i128 + oy as i128);
        match self.active_handle {
            HandleType::NoHandle => {
                self.drag_offset_x = ox;
                self.drag_offset_y = oy;
                proof {
                    assert(final(self)@ =~= spec_on_drag_update(
                        old(self)@,
                        ox as int,
                        oy as int,
                    ));
                }
                None
            },
            HandleType::Rotation => {
                let shape = self.store.shape_at(idx);
                let (cx2, cy2) = shape.center_doubled();
                proof {
                    assert(final(self)@ =~= old(self)@);
                }
                Some(RotationQuery { center_x2: cx2, center_y2: cy2, x: current_x, y: current_y })
            },
            h => {
                let corner: u8 = match h {
                    HandleType::TopLeft => 0,
                    HandleType::TopRight => 1,
                    HandleType::BottomLeft => 2,
                    HandleType::BottomRight => 3,
                    _ => 0,
                };
                self.store.resize_shape(idx, corner, current_x, current_y);
                proof {
                    assert(final(self)@ =~= spec_on_drag_update(
                        old(self)@,
                        ox as int,
                        oy as int,
                    ));
                }
                None
            },
        }
    }

    /// Apply the absolute rotation angle (microradians) the host computed
    /// for the pending rotation drag; without such a drag nothing changes.
    pub fn apply_rotation(&mut self, angle: i64)
        requires
            old(self)@.wf(),
        ensures
            final(self)@.wf(),
            ({
                if spec_wants_rotation(old(self)@) {
                    match old(self)@.selected {
                        Some(idx) => final(self)@ == (EditorView {
                            committed: old(self)@.committed.update(
                                idx as int,
                                ShapeView {
                                    rotation: angle as int,
                                    ..old(self)@.committed[idx as int]
                                },
                            ),
                            ..old(self)@
                        }),
                        None => false,
                    }
                } else {
                    final(self)@ == old(self)@
                }
            }),
    {
        if !self.dragging {
            proof {
                assert(final(self)@ =~= old(self)@);
            }
            return ;
        }
        if self.active_handle != HandleType::Rotation {
            proof {
                assert(final(self)@ =~= old(self)@);
            }
            return ;
        }
        match self.selected_index {
            Some(idx) => {
                if idx < self.store.len() {
                    self.store.rotate_shape(idx, angle);
                    proof {
                        assert(final(self)@ =~= (EditorView {
                            committed: old(self)@.committed.update(
                                idx as int,
                                ShapeView {
                                    rotation: angle as int,
                                    ..old(self)@.committed[idx as int]
                                },
                            ),
                            ..old(self)@
                        }));
                    }
                }
            },
            None => {
                proof {
                    assert(final(self)@ =~= old(self)@);
                }
            },
        }
    }

    /// Handle a drag-end with device-space offsets: a plain move commits the
    /// accumulated translation; handle drags were already applied live.
    pub fn on_drag_end(&mut self, offset_x: i64, offset_y: i64)
        requires
            old(self)@.wf(),
            -DEVICE_MAX <= offset_x <= DEVICE_MAX,
            -DEVICE_MAX <= offset_y <= DEVICE_MAX,
        ensures
            final(self)@.wf(),
            ({
                let ox = spec_to_canvas(offset_x as int, zoom_num(old(self)@.zoom), zoom_den(old(self)@.zoom));
                let oy = spec_to_canvas(offset_y as int, zoom_num(old(self)@.zoom), zoom_den(old(self)@.zoom));
                final(self)@ == spec_on_drag_end(old(self)@, ox, oy)
            }),
    {
        let (ox, oy) = self.screen_to_canvas(offset_x, offset_y);
        if !self.dragging {
            proof {
                assert(final(self)@ =~= old(self)@);
            }
            return ;
        }
        if self.active_handle == HandleType::NoHandle {
            if let Some(idx) = self.selected_index {
                if idx < self.store.len() {
                    self.store.translate_shape(idx, ox, oy);
                }
            }
        }
        self.dragging = false;
        self.active_handle = HandleType::NoHandle;
        self.drag_offset_x = 0;
        self.drag_offset_y = 0;
        proof {
            assert(final(self)@ =~= spec_on_drag_end(old(self)@, ox as int, oy as int));
        }
    }

    /// Handle a key event; returns whether the engine consumed it (it does
    /// exactly when a text session is active).
    pub fn on_key(&mut self, key: KeyInput) -> (handled: bool)
        requires
            old(self)@.wf(),
        ensures
            final(self)@.wf(),
            final(self)@ == spec_on_key(old(self)@, key),
            handled == old(self)@.text_active,
    {
        if !self.text_input_active {
            return false;
        }
        match key {
            KeyInput::Enter => {
                self.finish_text_input();
            },
            KeyInput::Escape => {
                self.cancel_text_input();
            },
            KeyInput::Backspace => {
                let _ = self.text_input_buffer.pop();
                proof {
                    if old(self)@.text_buffer.len() == 0 {
                        assert(final(self)@ =~= old(self)@);
                    }
                }
            },
            KeyInput::Character(c) => {
                if !is_control_char(c) && self.text_input_buffer.len() < TEXT_LIMIT {
                    self.text_input_buffer.push(c);
                }
            },
        }
        proof {
            assert(final(self)@ =~= spec_on_key(old(self)@, key));
        }
        true
    }

    /// Start a pan session anchored at the device point `(x, y)`.
    pub fn pan_begin(&mut self, x: i64, y: i64)
        requires
            old(self)@.wf(),
        ensures
            final(self)@.wf(),
            final(self)@ == (EditorView {
                panning: true,
                pan_start_x: x as int,
                pan_start_y: y as int,
                ..old(self)@
            }),
    {
        self.panning = true;
        self.pan_start_x = x;
        self.pan_start_y = y;
        proof {
            assert(final(self)@ =~= (EditorView {
                panning: true,
                pan_start_x: x as int,
                pan_start_y: y as int,
                ..old(self)@
            }));
        }
    }

    /// End the pan session.
    pub fn pan_end(&mut self)
        requires
            old(self)@.wf(),
        ensures
            final(self)@.wf(),
            final(self)@ == (EditorView { panning: false, ..old(self)@ }),
    {
        self.panning = false;
        proof {
            assert(final(self)@ =~= (EditorView { panning: false, ..old(self)@ }));
        }
    }

    pub fn is_panning(&self) -> (r: bool)
        ensures
            r == self@.panning,
    {
        self.panning
    }
}

/// The new value of a scroll adjustment after panning by `delta`, clamped to
/// the adjustment's valid range (its lower bound through its upper bound
/// less one page).
pub open spec fn spec_pan_adjust(value: int, delta: int, lower: int, top: int) -> int {
    let moved = value + delta;
    if moved < lower {
        lower
    } else if moved > top {
        top
    } else {
        moved
    }
}

/// Pan one scroll adjustment: add the delta and clamp to the valid range.
pub fn pan_adjust(value: i64, delta: i64, lower: i64, upper: i64, page_size: i64) -> (r: i64)
    requires
        -0x1000000000000 <= value <= 0x1000000000000,
        -0x1000000000000 <= delta <= 0x1000000000000,
        -0x1000000000000 <= lower <= 0x1000000000000,
        -0x1000000000000 <= upper <= 0x1000000000000,
        -0x1000000000000 <= page_size <= 0x1000000000000,
        lower <= upper - page_size,
    ensures
        r == spec_pan_adjust(value as int, delta as int, lower as int, upper as int - page_size as int),
{
    let top = upper - page_size;
    let moved = value + delta;
    if moved < lower {
        lower
    } else if moved > top {
        top
    } else {
        moved
    }
}

} // verus!
