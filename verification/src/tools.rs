//! Tool selection and the paint attributes captured into new shapes.

use vstd::prelude::*;

use crate::geom::{event_coord, CANVAS_LIMIT};
use crate::shapes::{Color, Shape, ShapeType, ShapeView, FONT_LIMIT, TEXT_LIMIT};

verus! {

/// The active tool: one of the shape-drawing tools, or selection.
#[derive(Clone, Copy, PartialEq, Eq, Structural, Debug)]
pub enum ToolType {
    Select,
    Rectangle,
    Circle,
    Line,
    Arrow,
    FreeHand,
    Text,
    Blur,
    Highlight,
}

impl Default for ToolType {
    fn default() -> (t: ToolType)
        ensures
            t == ToolType::Select,
    {
        ToolType::Select
    }
}

/// The shape kind a drag with the given tool creates; the select, freehand
/// and text tools create no shape through a plain drag.
pub open spec fn spec_drag_shape_type(t: ToolType) -> Option<ShapeType> {
    match t {
        ToolType::Rectangle => Some(ShapeType::Rectangle),
        ToolType::Circle => Some(ShapeType::Ellipse),
        ToolType::Line => Some(ShapeType::Line),
        ToolType::Arrow => Some(ShapeType::Arrow),
        ToolType::Blur => Some(ShapeType::Blur),
        ToolType::Highlight => Some(ShapeType::Highlight),
        _ => None,
    }
}

/// The current tool and paint attributes. Attributes are captured into a
/// shape when it is created; changing them later never alters existing
/// shapes.
pub struct Tool {
    pub tool_type: ToolType,
    pub color: Color,
    pub stroke_width: i64,
    pub filled: bool,
    pub font_size: i64,
}

impl Tool {
    pub open spec fn wf(self) -> bool {
        &&& self.color.wf()
        &&& 0 <= self.stroke_width <= CANVAS_LIMIT as int
        &&& 1 <= self.font_size <= FONT_LIMIT as int
    }
}

impl Default for Tool {
    /// Selection tool, red paint, stroke width three, no fill, font size
    /// twenty.
    fn default() -> (t: Tool)
        ensures
            t.tool_type == ToolType::Select,
            t.color == (Color { r: 1000u16, g: 0u16, b: 0u16, a: 1000u16 }),
            t.stroke_width == 3,
            !t.filled,
            t.font_size == 20,
            t.wf(),
    {
        Tool {
            tool_type: ToolType::Select,
            color: Color { r: 1000, g: 0, b: 0, a: 1000 },
            stroke_width: 3,
            filled: false,
            font_size: 20,
        }
    }
}

/// The shape a drag from `(sx, sy)` to `(ex, ey)` creates with this tool, if
/// the tool draws shapes.
pub open spec fn spec_create_shape(t: Tool, sx: int, sy: int, ex: int, ey: int) -> Option<
    ShapeView,
> {
    match spec_drag_shape_type(t.tool_type) {
        Some(st) => Some(
            ShapeView {
                shape_type: st,
                start_x: sx,
                start_y: sy,
                end_x: ex,
                end_y: ey,
                color: t.color,
                stroke_width: t.stroke_width as int,
                filled: t.filled,
                points: Seq::empty(),
                text: Seq::empty(),
                font_size: t.font_size as int,
                rotation: 0,
            },
        ),
        None => None,
    }
}

/// The text shape committed at `(x, y)` with the given contents.
pub open spec fn spec_create_text_shape(t: Tool, x: int, y: int, text: Seq<char>) -> ShapeView {
    ShapeView {
        shape_type: ShapeType::Text,
        start_x: x,
        start_y: y,
        end_x: x,
        end_y: y,
        color: t.color,
        stroke_width: t.stroke_width as int,
        filled: false,
        points: Seq::empty(),
        text: text,
        font_size: t.font_size as int,
        rotation: 0,
    }
}

impl Tool {
    /// Instantiate a new shape for a drag with the current tool, capturing
    /// the current paint attributes; the select, freehand and text tools
    /// return nothing.
    pub fn create_shape(&self, start_x: i64, start_y: i64, end_x: i64, end_y: i64) -> (r: Option<
        Shape,
    >)
        requires
            self.wf(),
            event_coord(start_x as int),
            event_coord(start_y as int),
            event_coord(end_x as int),
            event_coord(end_y as int),
        ensures
            (r is Some) == (spec_create_shape(*self, start_x as int, start_y as int, end_x as int, end_y as int) is Some),
            r matches Some(s) ==> s@ == spec_create_shape(
                *self,
                start_x as int,
                start_y as int,
                end_x as int,
                end_y as int,
            ).unwrap() && s@.wf(),
    {
        let shape_type = match self.tool_type {
            ToolType::Rectangle => ShapeType::Rectangle,
            ToolType::Circle => ShapeType::Ellipse,
            ToolType::Line => ShapeType::Line,
            ToolType::Arrow => ShapeType::Arrow,
            ToolType::Blur => ShapeType::Blur,
            ToolType::Highlight => ShapeType::Highlight,
            _ => {
                return None;
            },
        };
        let s = Shape {
            shape_type,
            start_x,
            start_y,
            end_x,
            end_y,
            color: self.color,
            stroke_width: self.stroke_width,
            filled: self.filled,
            points: Vec::new(),
            text: Vec::new(),
            font_size: self.font_size,
            rotation: 0,
        };
        proof {
            assert(s@ =~= spec_create_shape(
                *self,
                start_x as int,
                start_y as int,
                end_x as int,
                end_y as int,
            ).unwrap());
        }
        Some(s)
    }

    /// Instantiate the text shape for a committed text session, capturing
    /// the current paint attributes.
    pub fn create_text_shape(&self, x: i64, y: i64, text: Vec<char>) -> (s: Shape)
        requires
            self.wf(),
            event_coord(x as int),
            event_coord(y as int),
            text@.len() <= TEXT_LIMIT as int,
        ensures
            s@ == spec_create_text_shape(*self, x as int, y as int, text@),
            s@.wf(),
    {
        let s = Shape {
            shape_type: ShapeType::Text,
            start_x: x,
            start_y: y,
            end_x: x,
            end_y: y,
            color: self.color,
            stroke_width: self.stroke_width,
            filled: false,
            points: Vec::new(),
            text,
            font_size: self.font_size,
            rotation: 0,
        };
        proof {
            assert(s@ =~= spec_create_text_shape(*self, x as int, y as int, s.text@));
        }
        s
    }
}

} // verus!
