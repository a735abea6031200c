//! The geometric primitive model: the closed set of drawable shape variants
//! and their paint styles.  Pure immutable value data.

use vstd::prelude::*;

verus! {

/// A point on the integer pixel grid.
#[derive(Clone, Copy, Debug, PartialEq, Eq, Structural)]
pub struct Point {
    pub x: i64,
    pub y: i64,
}

/// An axis-aligned rectangle with optional rounded corners.
///
/// All fields are non-negative.  `rx` and `ry` are the corner radii; each is
/// expected to be at most half the corresponding side, but that is the
/// caller's responsibility and is not enforced.  `rx == 0 && ry == 0` means a
/// sharp rectangle.
#[derive(Clone, Copy, Debug, PartialEq, Eq, Structural)]
pub struct RectangleData {
    pub left: u32,
    pub top: u32,
    pub width: u32,
    pub height: u32,
    pub rx: u32,
    pub ry: u32,
}

/// A straight line segment between two arbitrary points.
#[derive(Clone, Copy, Debug, PartialEq, Eq, Structural)]
pub struct LineData {
    pub x1: i64,
    pub y1: i64,
    pub x2: i64,
    pub y2: i64,
}

/// A full ellipse: center, non-negative radii, rotation fixed at zero,
/// always drawn through the whole 360 degrees.
#[derive(Clone, Copy, Debug, PartialEq, Eq, Structural)]
pub struct EllipseData {
    pub cx: i64,
    pub cy: i64,
    pub rx: u32,
    pub ry: u32,
}

/// A text run: anchor point, content (may be empty) and a font descriptor in
/// the surface's own font syntax.  Both strings are passed through verbatim.
#[derive(Clone, Debug)]
pub struct TextData {
    pub x: i64,
    pub y: i64,
    pub text: String,
    pub font: String,
}

/// One step of a compound path, extending the path from the current point.
#[derive(Clone, Copy, Debug, PartialEq, Eq, Structural)]
pub enum PathSegment {
    /// Reposition the current point without drawing.
    MoveTo { to_x: i64, to_y: i64 },
    /// A straight segment to the given point.
    LineTo { to_x: i64, to_y: i64 },
    /// A cubic Bezier curve with two control points.
    BezierCurveTo { cp1_x: i64, cp1_y: i64, cp2_x: i64, cp2_y: i64, to_x: i64, to_y: i64 },
    /// A quadratic Bezier curve with one control point.
    QuadraticCurveTo { cp_x: i64, cp_y: i64, to_x: i64, to_y: i64 },
}

/// A compound path: a start point plus an ordered sequence of segments.
/// The sequence may be empty (a degenerate path: a single point).
#[derive(Clone, Debug)]
pub struct PathData {
    pub start_x: i64,
    pub start_y: i64,
    pub segments: Vec<PathSegment>,
}

/// The paint style of a primitive: exactly one of fill or stroke.  A caller
/// that wants a shape both filled and stroked supplies the primitive twice.
/// Color strings are opaque to this core and passed through verbatim; the
/// stroke width is a positive integer and is read only when stroking.
#[derive(Clone, Debug)]
pub enum Styles {
    Fill { color: String },
    Stroke { color: String, width: u32 },
}

/// One drawable primitive: a shape description paired with its paint style.
#[derive(Clone, Debug)]
pub enum GeometricPrimitive {
    Rectangle { data: RectangleData, styles: Styles },
    Line { data: LineData, styles: Styles },
    Text { data: TextData, styles: Styles },
    Ellipse { data: EllipseData, styles: Styles },
    /// An ordered sequence of at least one point, rendered as a closed loop.
    Polygon { points: Vec<Point>, styles: Styles },
    Path { data: PathData, styles: Styles },
}

/// The mathematical value of a `TextData`: strings as character sequences.
pub struct TextView {
    pub x: i64,
    pub y: i64,
    pub text: Seq<char>,
    pub font: Seq<char>,
}

/// The mathematical value of a `PathData`.
pub struct PathView {
    pub start_x: i64,
    pub start_y: i64,
    pub segments: Seq<PathSegment>,
}

/// The mathematical value of a `Styles`.
pub enum StyleView {
    Fill { color: Seq<char> },
    Stroke { color: Seq<char>, width: u32 },
}

/// The mathematical value of a `GeometricPrimitive`.
pub enum PrimitiveView {
    Rectangle { data: RectangleData, styles: StyleView },
    Line { data: LineData, styles: StyleView },
    Text { data: TextView, styles: StyleView },
    Ellipse { data: EllipseData, styles: StyleView },
    Polygon { points: Seq<Point>, styles: StyleView },
    Path { data: PathView, styles: StyleView },
}

impl View for TextData {
    type V = TextView;

    open spec fn view(&self) -> TextView {
        TextView { x: self.x, y: self.y, text: self.text@, font: self.font@ }
    }
}

impl View for PathData {
    type V = PathView;

    open spec fn view(&self) -> PathView {
        PathView { start_x: self.start_x, start_y: self.start_y, segments: self.segments@ }
    }
}

impl View for Styles {
    type V = StyleView;

    open spec fn view(&self) -> StyleView {
        match self {
            Styles::Fill { color } => StyleView::Fill { color: color@ },
            Styles::Stroke { color, width } => StyleView::Stroke { color: color@, width: *width },
        }
    }
}

impl View for GeometricPrimitive {
    type V = PrimitiveView;

    open spec fn view(&self) -> PrimitiveView {
        match self {
            GeometricPrimitive::Rectangle { data, styles } => PrimitiveView::Rectangle {
                data: *data,
                styles: styles@,
            },
            GeometricPrimitive::Line { data, styles } => PrimitiveView::Line {
                data: *data,
                styles: styles@,
            },
            GeometricPrimitive::Text { data, styles } => PrimitiveView::Text {
                data: data@,
                styles: styles@,
            },
            GeometricPrimitive::Ellipse { data, styles } => PrimitiveView::Ellipse {
                data: *data,
                styles: styles@,
            },
            GeometricPrimitive::Polygon { points, styles } => PrimitiveView::Polygon {
                points: points@,
                styles: styles@,
            },
            GeometricPrimitive::Path { data, styles } => PrimitiveView::Path {
                data: data@,
                styles: styles@,
            },
        }
    }
}

} // verus!
