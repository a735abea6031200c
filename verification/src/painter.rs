//! The path construction engine and style resolution.
//!
//! Each `draw_*` function translates one shape description plus a paint
//! style into the exact ordered sequence of surface operations, and its
//! contract states that sequence: the surface's transcript grows by
//! precisely the operations of the corresponding `*_ops` spec function.

use vstd::prelude::*;

use crate::primitives::{
    EllipseData, LineData, PathData, PathSegment, PathView, Point, RectangleData, StyleView,
    Styles, TextData, TextView,
};
use crate::surface::{AbsOp, Surface};

verus! {

/// The defined error of the renderer: a precondition violation that must
/// fail loudly rather than silently skip a draw call.
#[derive(Clone, Copy, Debug, PartialEq, Eq, Structural)]
pub enum RenderError {
    /// Polygon rendering was invoked with an empty point sequence.
    EmptyPolygon,
}

/// The paint-state mutations and the commit for one style: set the colors
/// (and, for strokes, the line width), then fill or stroke the current path.
pub open spec fn style_ops(st: StyleView) -> Seq<AbsOp> {
    match st {
        StyleView::Fill { color } => seq![AbsOp::SetFillColor { color }, AbsOp::Fill],
        StyleView::Stroke { color, width } => seq![
            AbsOp::SetStrokeColor { color },
            AbsOp::SetLineWidth { width },
            AbsOp::Stroke,
        ],
    }
}

/// The closed rounded-rectangle contour: four edges joined by quadratic
/// Bezier corners whose control points are the sharp corners themselves.
/// The contour starts and ends at (left + rx, top).
pub open spec fn round_rect_path_ops(d: RectangleData) -> Seq<AbsOp> {
    seq![
        AbsOp::MoveTo { x: (d.left + d.rx) as i64, y: d.top as i64 },
        AbsOp::LineTo { x: (d.left + d.width - d.rx) as i64, y: d.top as i64 },
        AbsOp::QuadraticCurveTo {
            cp_x: (d.left + d.width) as i64,
            cp_y: d.top as i64,
            x: (d.left + d.width) as i64,
            y: (d.top + d.ry) as i64,
        },
        AbsOp::LineTo { x: (d.left + d.width) as i64, y: (d.top + d.height - d.ry) as i64 },
        AbsOp::QuadraticCurveTo {
            cp_x: (d.left + d.width) as i64,
            cp_y: (d.top + d.height) as i64,
            x: (d.left + d.width - d.rx) as i64,
            y: (d.top + d.height) as i64,
        },
        AbsOp::LineTo { x: (d.left + d.rx) as i64, y: (d.top + d.height) as i64 },
        AbsOp::QuadraticCurveTo {
            cp_x: d.left as i64,
            cp_y: (d.top + d.height) as i64,
            x: d.left as i64,
            y: (d.top + d.height - d.ry) as i64,
        },
        AbsOp::LineTo { x: d.left as i64, y: (d.top + d.ry) as i64 },
        AbsOp::QuadraticCurveTo {
            cp_x: d.left as i64,
            cp_y: d.top as i64,
            x: (d.left + d.rx) as i64,
            y: d.top as i64,
        },
    ]
}

/// A rounded rectangle: one path scope around the contour and the paint.
pub open spec fn round_rect_ops(d: RectangleData, st: StyleView) -> Seq<AbsOp> {
    seq![AbsOp::BeginPath] + round_rect_path_ops(d) + style_ops(st) + seq![AbsOp::ClosePath]
}

/// A rectangle: the rounded-rectangle contour when either radius is
/// positive, else the surface's native rectangle fill or stroke.
pub open spec fn rect_ops(d: RectangleData, st: StyleView) -> Seq<AbsOp> {
    if d.rx > 0 || d.ry > 0 {
        round_rect_ops(d, st)
    } else {
        match st {
            StyleView::Fill { color } => seq![
                AbsOp::SetFillColor { color },
                AbsOp::FillRect { left: d.left, top: d.top, width: d.width, height: d.height },
            ],
            StyleView::Stroke { color, width } => seq![
                AbsOp::SetStrokeColor { color },
                AbsOp::SetLineWidth { width },
                AbsOp::StrokeRect { left: d.left, top: d.top, width: d.width, height: d.height },
            ],
        }
    }
}

/// A line: a path scope holding one move and one straight segment.
pub open spec fn line_ops(d: LineData, st: StyleView) -> Seq<AbsOp> {
    seq![
        AbsOp::BeginPath,
        AbsOp::MoveTo { x: d.x1, y: d.y1 },
        AbsOp::LineTo { x: d.x2, y: d.y2 },
    ] + style_ops(st) + seq![AbsOp::ClosePath]
}

/// An ellipse: a path scope holding the full ellipse.
pub open spec fn ellipse_ops(d: EllipseData, st: StyleView) -> Seq<AbsOp> {
    seq![
        AbsOp::BeginPath,
        AbsOp::Ellipse { cx: d.cx, cy: d.cy, rx: d.rx, ry: d.ry },
    ] + style_ops(st) + seq![AbsOp::ClosePath]
}

/// A text run: set the font, then paint the string filled or stroked.
pub open spec fn text_ops(t: TextView, st: StyleView) -> Seq<AbsOp> {
    match st {
        StyleView::Fill { color } => seq![
            AbsOp::SetFont { font: t.font },
            AbsOp::SetFillColor { color },
            AbsOp::FillText { text: t.text, x: t.x, y: t.y },
        ],
        StyleView::Stroke { color, width } => seq![
            AbsOp::SetFont { font: t.font },
            AbsOp::SetStrokeColor { color },
            AbsOp::SetLineWidth { width },
            AbsOp::StrokeText { text: t.text, x: t.x, y: t.y },
        ],
    }
}

/// A line through every given point, in order.
pub open spec fn polyline_ops(pts: Seq<Point>) -> Seq<AbsOp>
    decreases pts.len(),
{
    if pts.len() == 0 {
        Seq::empty()
    } else {
        polyline_ops(pts.drop_last()) + seq![
            AbsOp::LineTo { x: pts.last().x, y: pts.last().y },
        ]
    }
}

/// `polyline_ops` draws exactly one straight segment per input point.
pub proof fn lemma_polyline_ops(pts: Seq<Point>)
    ensures
        polyline_ops(pts).len() == pts.len(),
        forall|k: int|
            0 <= k < pts.len() ==> polyline_ops(pts)[k] == (AbsOp::LineTo {
                x: pts[k].x,
                y: pts[k].y,
            }),
    decreases pts.len(),
{
    if pts.len() > 0 {
        lemma_polyline_ops(pts.drop_last());
    }
}

/// The closed polygon contour: a move to the first point, a line through
/// every input point in order, and a final line back to the first point,
/// whether or not the input already closes itself.
pub open spec fn polygon_path_ops(pts: Seq<Point>) -> Seq<AbsOp> {
    seq![AbsOp::MoveTo { x: pts[0].x, y: pts[0].y }] + polyline_ops(pts) + seq![
        AbsOp::LineTo { x: pts[0].x, y: pts[0].y },
    ]
}

/// A polygon: one path scope around the closed contour and the paint.
pub open spec fn polygon_ops(pts: Seq<Point>, st: StyleView) -> Seq<AbsOp> {
    seq![AbsOp::BeginPath] + polygon_path_ops(pts) + style_ops(st) + seq![AbsOp::ClosePath]
}

/// The surface operation that replays one path segment.
pub open spec fn segment_op(seg: PathSegment) -> AbsOp {
    match seg {
        PathSegment::MoveTo { to_x, to_y } => AbsOp::MoveTo { x: to_x, y: to_y },
        PathSegment::LineTo { to_x, to_y } => AbsOp::LineTo { x: to_x, y: to_y },
        PathSegment::BezierCurveTo { cp1_x, cp1_y, cp2_x, cp2_y, to_x, to_y } => {
            AbsOp::BezierCurveTo { cp1_x, cp1_y, cp2_x, cp2_y, x: to_x, y: to_y }
        },
        PathSegment::QuadraticCurveTo { cp_x, cp_y, to_x, to_y } => {
            AbsOp::QuadraticCurveTo { cp_x, cp_y, x: to_x, y: to_y }
        },
    }
}

/// The replay of a segment sequence: one surface operation per segment,
/// strictly in order.
pub open spec fn segments_ops(segs: Seq<PathSegment>) -> Seq<AbsOp>
    decreases segs.len(),
{
    if segs.len() == 0 {
        Seq::empty()
    } else {
        segments_ops(segs.drop_last()) + seq![segment_op(segs.last())]
    }
}

/// `segments_ops` replays exactly one operation per segment.
pub proof fn lemma_segments_ops(segs: Seq<PathSegment>)
    ensures
        segments_ops(segs).len() == segs.len(),
        forall|k: int| 0 <= k < segs.len() ==> segments_ops(segs)[k] == segment_op(segs[k]),
    decreases segs.len(),
{
    if segs.len() > 0 {
        lemma_segments_ops(segs.drop_last());
    }
}

/// A compound path: a path scope with a move to the start point, every
/// segment replayed strictly in sequence, then the paint.
pub open spec fn path_ops(p: PathView, st: StyleView) -> Seq<AbsOp> {
    seq![AbsOp::BeginPath, AbsOp::MoveTo { x: p.start_x, y: p.start_y }] + segments_ops(p.segments)
        + style_ops(st) + seq![AbsOp::ClosePath]
}

/// Set the surface's fill color.
pub fn apply_fill(s: &mut Surface, color: &String)
    ensures
        final(s)@ == old(s)@.push(AbsOp::SetFillColor { color: color@ }),
{
    s.set_fill_color(color.clone());
}

/// Set the surface's stroke color and line width.
pub fn apply_stroke(s: &mut Surface, color: &String, width: u32)
    ensures
        final(s)@ == old(s)@ + seq![
            AbsOp::SetStrokeColor { color: color@ },
            AbsOp::SetLineWidth { width },
        ],
{
    s.set_stroke_color(color.clone());
    s.set_line_width(width);
    proof {
        assert(s@ =~= old(s)@ + seq![
            AbsOp::SetStrokeColor { color: color@ },
            AbsOp::SetLineWidth { width },
        ]);
    }
}

/// Resolve a style: apply its paint state, then commit the current path.
pub fn fill_or_stroke(s: &mut Surface, styles: &Styles)
    ensures
        final(s)@ == old(s)@ + style_ops(styles@),
{
    match styles {
        Styles::Fill { color } => {
            apply_fill(s, color);
            s.fill();
        },
        Styles::Stroke { color, width } => {
            apply_stroke(s, color, *width);
            s.stroke();
        },
    }
    proof {
        assert(s@ =~= old(s)@ + style_ops(styles@));
    }
}

/// Build and paint the rounded-rectangle contour.
pub fn draw_round_rect(s: &mut Surface, data: &RectangleData, styles: &Styles)
    ensures
        final(s)@ == old(s)@ + round_rect_ops(*data, styles@),
{
    let left: i64 = data.left as i64;
    let top: i64 = data.top as i64;
    let width: i64 = data.width as i64;
    let height: i64 = data.height as i64;
    let rx: i64 = data.rx as i64;
    let ry: i64 = data.ry as i64;
    s.begin_path();
    s.move_to(left + rx, top);
    s.line_to(left + width - rx, top);
    s.quadratic_curve_to(left + width, top, left + width, top + ry);
    s.line_to(left + width, top + height - ry);
    s.quadratic_curve_to(left + width, top + height, left + width - rx, top + height);
    s.line_to(left + rx, top + height);
    s.quadratic_curve_to(left, top + height, left, top + height - ry);
    s.line_to(left, top + ry);
    s.quadratic_curve_to(left, top, left + rx, top);
    fill_or_stroke(s, styles);
    s.close_path();
    proof {
        assert(s@ =~= old(s)@ + round_rect_ops(*data, styles@));
    }
}

/// Draw a rectangle: the native rectangle operation when both corner radii
/// are zero, else the rounded-rectangle contour.
pub fn draw_rect(s: &mut Surface, data: &RectangleData, styles: &Styles)
    ensures
        final(s)@ == old(s)@ + rect_ops(*data, styles@),
{
    if data.rx > 0 || data.ry > 0 {
        draw_round_rect(s, data, styles);
    } else {
        match styles {
            Styles::Fill { color } => {
                apply_fill(s, color);
                s.fill_rect(data.left, data.top, data.width, data.height);
            },
            Styles::Stroke { color, width } => {
                apply_stroke(s, color, *width);
                s.stroke_rect(data.left, data.top, data.width, data.height);
            },
        }
        proof {
            assert(s@ =~= old(s)@ + rect_ops(*data, styles@));
        }
    }
}

/// Draw a straight line.
pub fn draw_line(s: &mut Surface, data: &LineData, styles: &Styles)
    ensures
        final(s)@ == old(s)@ + line_ops(*data, styles@),
{
    s.begin_path();
    s.move_to(data.x1, data.y1);
    s.line_to(data.x2, data.y2);
    fill_or_stroke(s, styles);
    s.close_path();
    proof {
        assert(s@ =~= old(s)@ + line_ops(*data, styles@));
    }
}

/// Draw a full ellipse.
pub fn draw_ellipse(s: &mut Surface, data: &EllipseData, styles: &Styles)
    ensures
        final(s)@ == old(s)@ + ellipse_ops(*data, styles@),
{
    s.begin_path();
    s.ellipse(data.cx, data.cy, data.rx, data.ry);
    fill_or_stroke(s, styles);
    s.close_path();
    proof {
        assert(s@ =~= old(s)@ + ellipse_ops(*data, styles@));
    }
}

/// Draw a text run: position and paint the string, no path scope.
pub fn draw_text(s: &mut Surface, data: &TextData, styles: &Styles)
    ensures
        final(s)@ == old(s)@ + text_ops(data@, styles@),
{
    s.set_font(data.font.clone());
    match styles {
        Styles::Fill { color } => {
            apply_fill(s, color);
            s.fill_text(data.text.clone(), data.x, data.y);
        },
        Styles::Stroke { color, width } => {
            apply_stroke(s, color, *width);
            s.stroke_text(data.text.clone(), data.x, data.y);
        },
    }
    proof {
        assert(s@ =~= old(s)@ + text_ops(data@, styles@));
    }
}

/// Replay one path segment onto the surface.
pub fn draw_path_segment(s: &mut Surface, segment: &PathSegment)
    ensures
        final(s)@ == old(s)@.push(segment_op(*segment)),
{
    match segment {
        PathSegment::MoveTo { to_x, to_y } => {
            s.move_to(*to_x, *to_y);
        },
        PathSegment::LineTo { to_x, to_y } => {
            s.line_to(*to_x, *to_y);
        },
        PathSegment::BezierCurveTo { cp1_x, cp1_y, cp2_x, cp2_y, to_x, to_y } => {
            s.bezier_curve_to(*cp1_x, *cp1_y, *cp2_x, *cp2_y, *to_x, *to_y);
        },
        PathSegment::QuadraticCurveTo { cp_x, cp_y, to_x, to_y } => {
            s.quadratic_curve_to(*cp_x, *cp_y, *to_x, *to_y);
        },
    }
}

/// Draw a polygon as a closed loop: a line through every input point and
/// back to the first.  An empty point sequence is the defined precondition
/// violation: the surface is left untouched and the error is returned.
pub fn draw_polygon(s: &mut Surface, points: &Vec<Point>, styles: &Styles) -> (r: Result<
    (),
    RenderError,
>)
    ensures
        points@.len() >= 1 ==> r is Ok
            && final(s)@ == old(s)@ + polygon_ops(points@, styles@),
        points@.len() == 0 ==> r == Err::<(), RenderError>(RenderError::EmptyPolygon)
            && final(s)@ == old(s)@,
{
    if points.len() == 0 {
        return Err(RenderError::EmptyPolygon);
    }
    let first = points[0];
    s.begin_path();
    s.move_to(first.x, first.y);
    let mut i: usize = 0;
    while i < points.len()
        invariant
            i <= points@.len(),
            points@.len() >= 1,
            first == points@[0],
            s@ == old(s)@ + seq![
                AbsOp::BeginPath,
                AbsOp::MoveTo { x: first.x, y: first.y },
            ] + polyline_ops(points@.take(i as int)),
        decreases points@.len() - i,
    {
        let p = points[i];
        s.line_to(p.x, p.y);
        proof {
            let taken = points@.take(i + 1 as int);
            assert(taken.drop_last() =~= points@.take(i as int));
            assert(taken.last() == p);
            assert(s@ =~= old(s)@ + seq![
                AbsOp::BeginPath,
                AbsOp::MoveTo { x: first.x, y: first.y },
            ] + polyline_ops(taken));
        }
        i = i + 1;
    }
    s.line_to(first.x, first.y);
    fill_or_stroke(s, styles);
    s.close_path();
    proof {
        assert(points@.take(points@.len() as int) =~= points@);
        assert(s@ =~= old(s)@ + polygon_ops(points@, styles@));
    }
    Ok(())
}

/// Draw a compound path: move to the start point, replay every segment in
/// sequence, then paint the whole path once.
pub fn draw_path(s: &mut Surface, data: &PathData, styles: &Styles)
    ensures
        final(s)@ == old(s)@ + path_ops(data@, styles@),
{
    s.begin_path();
    s.move_to(data.start_x, data.start_y);
    let mut i: usize = 0;
    while i < data.segments.len()
        invariant
            i <= data.segments@.len(),
            s@ == old(s)@ + seq![
                AbsOp::BeginPath,
                AbsOp::MoveTo { x: data.start_x, y: data.start_y },
            ] + segments_ops(data.segments@.take(i as int)),
        decreases data.segments@.len() - i,
    {
        let seg = data.segments[i];
        draw_path_segment(s, &seg);
        proof {
            let taken = data.segments@.take(i + 1 as int);
            assert(taken.drop_last() =~= data.segments@.take(i as int));
            assert(taken.last() == seg);
            assert(s@ =~= old(s)@ + seq![
                AbsOp::BeginPath,
                AbsOp::MoveTo { x: data.start_x, y: data.start_y },
            ] + segments_ops(taken));
        }
        i = i + 1;
    }
    fill_or_stroke(s, styles);
    s.close_path();
    proof {
        assert(data.segments@.take(data.segments@.len() as int) =~= data.segments@);
        assert(s@ =~= old(s)@ + path_ops(data@, styles@));
    }
}

} // verus!
