//! The abstract drawing surface.
//!
//! A surface executes low-level path-construction primitives and paint
//! commands.  This module models a surface as a transcript: each operation
//! issued to it is recorded, in order, in `Surface::ops`.  A rendering
//! backend replays the recorded operations verbatim against its real target;
//! a test double inspects them.

use vstd::prelude::*;

verus! {

/// One low-level operation issued to a drawing surface, exactly as a
/// backend must execute it.
#[derive(Clone, Debug)]
pub enum SurfaceOp {
    /// Erase the entire visible surface.
    Clear,
    /// Open a path scope: following path operations accumulate until commit.
    BeginPath,
    /// Close the current path scope.
    ClosePath,
    /// Reposition the current point without drawing.
    MoveTo { x: i64, y: i64 },
    /// Extend the current path with a straight segment.
    LineTo { x: i64, y: i64 },
    /// Extend the current path with a quadratic Bezier curve.
    QuadraticCurveTo { cp_x: i64, cp_y: i64, x: i64, y: i64 },
    /// Extend the current path with a cubic Bezier curve.
    BezierCurveTo { cp1_x: i64, cp1_y: i64, cp2_x: i64, cp2_y: i64, x: i64, y: i64 },
    /// Add a full ellipse (rotation zero, all 360 degrees) to the path.
    Ellipse { cx: i64, cy: i64, rx: u32, ry: u32 },
    /// Fill a rectangle with the current fill color (native, no path scope).
    FillRect { left: u32, top: u32, width: u32, height: u32 },
    /// Stroke a rectangle with the current stroke state (native, no path scope).
    StrokeRect { left: u32, top: u32, width: u32, height: u32 },
    /// Set the current fill color.
    SetFillColor { color: String },
    /// Set the current stroke color.
    SetStrokeColor { color: String },
    /// Set the current line width.
    SetLineWidth { width: u32 },
    /// Set the current font.
    SetFont { font: String },
    /// Paint a string filled at the given anchor.
    FillText { text: String, x: i64, y: i64 },
    /// Paint a string stroked at the given anchor.
    StrokeText { text: String, x: i64, y: i64 },
    /// Commit: fill the current path.
    Fill,
    /// Commit: stroke the current path.
    Stroke,
}

/// The mathematical value of a `SurfaceOp`: strings as character sequences.
pub enum AbsOp {
    Clear,
    BeginPath,
    ClosePath,
    MoveTo { x: i64, y: i64 },
    LineTo { x: i64, y: i64 },
    QuadraticCurveTo { cp_x: i64, cp_y: i64, x: i64, y: i64 },
    BezierCurveTo { cp1_x: i64, cp1_y: i64, cp2_x: i64, cp2_y: i64, x: i64, y: i64 },
    Ellipse { cx: i64, cy: i64, rx: u32, ry: u32 },
    FillRect { left: u32, top: u32, width: u32, height: u32 },
    StrokeRect { left: u32, top: u32, width: u32, height: u32 },
    SetFillColor { color: Seq<char> },
    SetStrokeColor { color: Seq<char> },
    SetLineWidth { width: u32 },
    SetFont { font: Seq<char> },
    FillText { text: Seq<char>, x: i64, y: i64 },
    StrokeText { text: Seq<char>, x: i64, y: i64 },
    Fill,
    Stroke,
}

impl View for SurfaceOp {
    type V = AbsOp;

    open spec fn view(&self) -> AbsOp {
        match self {
            SurfaceOp::Clear => AbsOp::Clear,
            SurfaceOp::BeginPath => AbsOp::BeginPath,
            SurfaceOp::ClosePath => AbsOp::ClosePath,
            SurfaceOp::MoveTo { x, y } => AbsOp::MoveTo { x: *x, y: *y },
            SurfaceOp::LineTo { x, y } => AbsOp::LineTo { x: *x, y: *y },
            SurfaceOp::QuadraticCurveTo { cp_x, cp_y, x, y } => AbsOp::QuadraticCurveTo {
                cp_x: *cp_x,
                cp_y: *cp_y,
                x: *x,
                y: *y,
            },
            SurfaceOp::BezierCurveTo { cp1_x, cp1_y, cp2_x, cp2_y, x, y } => AbsOp::BezierCurveTo {
                cp1_x: *cp1_x,
                cp1_y: *cp1_y,
                cp2_x: *cp2_x,
                cp2_y: *cp2_y,
                x: *x,
                y: *y,
            },
            SurfaceOp::Ellipse { cx, cy, rx, ry } => AbsOp::Ellipse {
                cx: *cx,
                cy: *cy,
                rx: *rx,
                ry: *ry,
            },
            SurfaceOp::FillRect { left, top, width, height } => AbsOp::FillRect {
                left: *left,
                top: *top,
                width: *width,
                height: *height,
            },
            SurfaceOp::StrokeRect { left, top, width, height } => AbsOp::StrokeRect {
                left: *left,
                top: *top,
                width: *width,
                height: *height,
            },
            SurfaceOp::SetFillColor { color } => AbsOp::SetFillColor { color: color@ },
            SurfaceOp::SetStrokeColor { color } => AbsOp::SetStrokeColor { color: color@ },
            SurfaceOp::SetLineWidth { width } => AbsOp::SetLineWidth { width: *width },
            SurfaceOp::SetFont { font } => AbsOp::SetFont { font: font@ },
            SurfaceOp::FillText { text, x, y } => AbsOp::FillText { text: text@, x: *x, y: *y },
            SurfaceOp::StrokeText { text, x, y } => AbsOp::StrokeText {
                text: text@,
                x: *x,
                y: *y,
            },
            SurfaceOp::Fill => AbsOp::Fill,
            SurfaceOp::Stroke => AbsOp::Stroke,
        }
    }
}

/// The mathematical value of a recorded operation list.
pub open spec fn ops_view(ops: Seq<SurfaceOp>) -> Seq<AbsOp> {
    ops.map_values(|op: SurfaceOp| op@)
}

/// A drawing surface that records every operation issued to it, in order.
/// Its view is the transcript of operations as mathematical values.
#[derive(Clone, Debug)]
pub struct Surface {
    pub ops: Vec<SurfaceOp>,
}

impl View for Surface {
    type V = Seq<AbsOp>;

    open spec fn view(&self) -> Seq<AbsOp> {
        ops_view(self.ops@)
    }
}

impl Surface {
    /// A fresh surface with an empty transcript.
    pub fn new() -> (s: Surface)
        ensures
            s@ == Seq::<AbsOp>::empty(),
    {
        let s = Surface { ops: Vec::new() };
        proof {
            assert(s@ =~= Seq::<AbsOp>::empty());
        }
        s
    }

    /// Append one operation to the transcript.
    fn record(&mut self, op: SurfaceOp)
        ensures
            final(self)@ == old(self)@.push(op@),
    {
        let ghost prev: Seq<SurfaceOp> = self.ops@;
        self.ops.push(op);
        proof {
            assert(self@ =~= ops_view(prev).push(op@));
        }
    }

    /// Erase the entire visible surface.
    pub fn clear(&mut self)
        ensures
            final(self)@ == old(self)@.push(AbsOp::Clear),
    {
        self.record(SurfaceOp::Clear);
    }

    /// Open a path scope.
    pub fn begin_path(&mut self)
        ensures
            final(self)@ == old(self)@.push(AbsOp::BeginPath),
    {
        self.record(SurfaceOp::BeginPath);
    }

    /// Close the current path scope.
    pub fn close_path(&mut self)
        ensures
            final(self)@ == old(self)@.push(AbsOp::ClosePath),
    {
        self.record(SurfaceOp::ClosePath);
    }

    /// Reposition the current point without drawing.
    pub fn move_to(&mut self, x: i64, y: i64)
        ensures
            final(self)@ == old(self)@.push(AbsOp::MoveTo { x, y }),
    {
        self.record(SurfaceOp::MoveTo { x, y });
    }

    /// Extend the current path with a straight segment.
    pub fn line_to(&mut self, x: i64, y: i64)
        ensures
            final(self)@ == old(self)@.push(AbsOp::LineTo { x, y }),
    {
        self.record(SurfaceOp::LineTo { x, y });
    }

    /// Extend the current path with a quadratic Bezier curve.
    pub fn quadratic_curve_to(&mut self, cp_x: i64, cp_y: i64, x: i64, y: i64)
        ensures
            final(self)@ == old(self)@.push(AbsOp::QuadraticCurveTo { cp_x, cp_y, x, y }),
    {
        self.record(SurfaceOp::QuadraticCurveTo { cp_x, cp_y, x, y });
    }

    /// Extend the current path with a cubic Bezier curve.
    pub fn bezier_curve_to(&mut self, cp1_x: i64, cp1_y: i64, cp2_x: i64, cp2_y: i64, x: i64, y: i64)
        ensures
            final(self)@ == old(self)@.push(
                AbsOp::BezierCurveTo { cp1_x, cp1_y, cp2_x, cp2_y, x, y },
            ),
    {
        self.record(SurfaceOp::BezierCurveTo { cp1_x, cp1_y, cp2_x, cp2_y, x, y });
    }

    /// Add a full ellipse to the current path.
    pub fn ellipse(&mut self, cx: i64, cy: i64, rx: u32, ry: u32)
        ensures
            final(self)@ == old(self)@.push(AbsOp::Ellipse { cx, cy, rx, ry }),
    {
        self.record(SurfaceOp::Ellipse { cx, cy, rx, ry });
    }

    /// Fill a rectangle with the current fill color.
    pub fn fill_rect(&mut self, left: u32, top: u32, width: u32, height: u32)
        ensures
            final(self)@ == old(self)@.push(AbsOp::FillRect { left, top, width, height }),
    {
        self.record(SurfaceOp::FillRect { left, top, width, height });
    }

    /// Stroke a rectangle with the current stroke state.
    pub fn stroke_rect(&mut self, left: u32, top: u32, width: u32, height: u32)
        ensures
            final(self)@ == old(self)@.push(AbsOp::StrokeRect { left, top, width, height }),
    {
        self.record(SurfaceOp::StrokeRect { left, top, width, height });
    }

    /// Set the current fill color.
    pub fn set_fill_color(&mut self, color: String)
        ensures
            final(self)@ == old(self)@.push(AbsOp::SetFillColor { color: color@ }),
    {
        self.record(SurfaceOp::SetFillColor { color });
    }

    /// Set the current stroke color.
    pub fn set_stroke_color(&mut self, color: String)
        ensures
            final(self)@ == old(self)@.push(AbsOp::SetStrokeColor { color: color@ }),
    {
        self.record(SurfaceOp::SetStrokeColor { color });
    }

    /// Set the current line width.
    pub fn set_line_width(&mut self, width: u32)
        ensures
            final(self)@ == old(self)@.push(AbsOp::SetLineWidth { width }),
    {
        self.record(SurfaceOp::SetLineWidth { width });
    }

    /// Set the current font.
    pub fn set_font(&mut self, font: String)
        ensures
            final(self)@ == old(self)@.push(AbsOp::SetFont { font: font@ }),
    {
        self.record(SurfaceOp::SetFont { font });
    }

    /// Paint a string filled at the given anchor.
    pub fn fill_text(&mut self, text: String, x: i64, y: i64)
        ensures
            final(self)@ == old(self)@.push(AbsOp::FillText { text: text@, x, y }),
    {
        self.record(SurfaceOp::FillText { text, x, y });
    }

    /// Paint a string stroked at the given anchor.
    pub fn stroke_text(&mut self, text: String, x: i64, y: i64)
        ensures
            final(self)@ == old(self)@.push(AbsOp::StrokeText { text: text@, x, y }),
    {
        self.record(SurfaceOp::StrokeText { text, x, y });
    }

    /// Commit: fill the current path.
    pub fn fill(&mut self)
        ensures
            final(self)@ == old(self)@.push(AbsOp::Fill),
    {
        self.record(SurfaceOp::Fill);
    }

    /// Commit: stroke the current path.
    pub fn stroke(&mut self)
        ensures
            final(self)@ == old(self)@.push(AbsOp::Stroke),
    {
        self.record(SurfaceOp::Stroke);
    }
}

} // verus!
