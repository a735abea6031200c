//! Laws of the renderer: properties that hold of every input, stated over
//! the op-sequence spec functions and proved once and for all.

use vstd::prelude::*;

use crate::frame::{frame_ops, prim_ops, body_ops};
use crate::painter::{
    lemma_polyline_ops, lemma_segments_ops, path_ops, polygon_path_ops, rect_ops,
    round_rect_path_ops, segment_op, segments_ops, style_ops,
};
use crate::primitives::{PathView, Point, PrimitiveView, RectangleData, StyleView};
use crate::surface::AbsOp;

verus! {

/// Where a path-extension operation leaves the current point, if it is one.
pub open spec fn path_op_end(op: AbsOp) -> Option<(i64, i64)> {
    match op {
        AbsOp::MoveTo { x, y } => Some((x, y)),
        AbsOp::LineTo { x, y } => Some((x, y)),
        AbsOp::QuadraticCurveTo { cp_x, cp_y, x, y } => Some((x, y)),
        AbsOp::BezierCurveTo { cp1_x, cp1_y, cp2_x, cp2_y, x, y } => Some((x, y)),
        _ => None::<(i64, i64)>,
    }
}

/// A curve operation: quadratic or cubic.
pub open spec fn is_curve_op(op: AbsOp) -> bool {
    op is QuadraticCurveTo || op is BezierCurveTo
}

/// An operation that belongs to stroke painting: stroke paint state or a
/// stroke commit.  The line width is set only here.
pub open spec fn is_stroke_paint(op: AbsOp) -> bool {
    op is SetStrokeColor || op is SetLineWidth || op is Stroke || op is StrokeRect
        || op is StrokeText
}

/// An operation that belongs to fill painting: fill paint state or a fill
/// commit.
pub open spec fn is_fill_paint(op: AbsOp) -> bool {
    op is SetFillColor || op is Fill || op is FillRect || op is FillText
}

/// The paint style of a primitive.
pub open spec fn style_of(p: PrimitiveView) -> StyleView {
    match p {
        PrimitiveView::Rectangle { styles, .. } => styles,
        PrimitiveView::Line { styles, .. } => styles,
        PrimitiveView::Text { styles, .. } => styles,
        PrimitiveView::Ellipse { styles, .. } => styles,
        PrimitiveView::Polygon { styles, .. } => styles,
        PrimitiveView::Path { styles, .. } => styles,
    }
}

/// What every operation of a primitive rendered with style `st` satisfies:
/// it is never a clear, and it never paints with the opposite style.
pub open spec fn paint_consistent(st: StyleView, op: AbsOp) -> bool {
    &&& !(op is Clear)
    &&& st is Fill ==> !is_stroke_paint(op)
    &&& st is Stroke ==> !is_fill_paint(op)
}

/// Rounded-rect closure: for any rectangle, the generated contour starts
/// with a move to (left + rx, top), and the endpoint of its last operation
/// is exactly that same point: the contour is closed.
pub proof fn lemma_round_rect_closure(d: RectangleData)
    ensures
        round_rect_path_ops(d).len() == 9,
        round_rect_path_ops(d).first() == (AbsOp::MoveTo {
            x: (d.left + d.rx) as i64,
            y: d.top as i64,
        }),
        path_op_end(round_rect_path_ops(d).last()) == Some(
            (((d.left + d.rx) as i64, d.top as i64)),
        ),
{
}

/// Sharp-rect bypass: a rectangle with both corner radii zero is rendered
/// through the surface's native rectangle operation; no curve operation
/// (indeed no path operation at all) is ever recorded for it.
pub proof fn lemma_sharp_rect_bypass(d: RectangleData, st: StyleView)
    requires
        d.rx == 0,
        d.ry == 0,
    ensures
        forall|i: int| 0 <= i < rect_ops(d, st).len() ==> !is_curve_op(#[trigger] rect_ops(d, st)[i]),
        rect_ops(d, st).last() == if st is Fill {
            AbsOp::FillRect { left: d.left, top: d.top, width: d.width, height: d.height }
        } else {
            AbsOp::StrokeRect { left: d.left, top: d.top, width: d.width, height: d.height }
        },
{
}

/// Polygon auto-close: for any input of at least one point, the contour is
/// a move to the first point, one line per input point, and always ends
/// with a line back to the first point — also when the caller's last point
/// already equals the first (the closing line is issued again, not dropped).
pub proof fn lemma_polygon_auto_close(pts: Seq<Point>)
    requires
        pts.len() >= 1,
    ensures
        polygon_path_ops(pts).len() == pts.len() + 2,
        polygon_path_ops(pts).first() == (AbsOp::MoveTo { x: pts[0].x, y: pts[0].y }),
        forall|k: int|
            0 <= k < pts.len() ==> polygon_path_ops(pts)[1 + k] == (AbsOp::LineTo {
                x: pts[k].x,
                y: pts[k].y,
            }),
        polygon_path_ops(pts).last() == (AbsOp::LineTo { x: pts[0].x, y: pts[0].y }),
{
    lemma_polyline_ops(pts);
}

/// Path replay fidelity: a compound path is replayed as a move to its start
/// point followed by exactly one path-extension operation per segment, in
/// segment order, each carrying the segment's own coordinates; the paint
/// follows only after all segments.
pub proof fn lemma_path_replay(p: PathView, st: StyleView)
    ensures
        path_ops(p, st).len() == 3 + p.segments.len() + style_ops(st).len(),
        path_ops(p, st)[0] == AbsOp::BeginPath,
        path_ops(p, st)[1] == (AbsOp::MoveTo { x: p.start_x, y: p.start_y }),
        forall|k: int|
            0 <= k < p.segments.len() ==> path_ops(p, st)[2 + k] == segment_op(p.segments[k]),
        forall|j: int|
            0 <= j < style_ops(st).len() ==> path_ops(p, st)[2 + p.segments.len() + j]
                == style_ops(st)[j],
        path_ops(p, st).last() == AbsOp::ClosePath,
{
    lemma_segments_ops(p.segments);
}

/// Every operation of `style_ops(st)` is consistent with `st`.
proof fn lemma_style_ops_consistent(st: StyleView)
    ensures
        forall|i: int|
            0 <= i < style_ops(st).len() ==> paint_consistent(st, #[trigger] style_ops(st)[i]),
{
}

/// Every operation that renders a primitive is consistent with the
/// primitive's own style: no clear, and no paint of the opposite mode.
pub proof fn lemma_prim_ops_consistent(p: PrimitiveView)
    ensures
        forall|i: int|
            0 <= i < prim_ops(p).len() ==> paint_consistent(style_of(p), #[trigger] prim_ops(p)[i]),
{
    let st = style_of(p);
    lemma_style_ops_consistent(st);
    match p {
        PrimitiveView::Polygon { points, .. } => {
            lemma_polyline_ops(points);
        },
        PrimitiveView::Path { data, .. } => {
            lemma_segments_ops(data.segments);
            assert forall|k: int| 0 <= k < data.segments.len() implies paint_consistent(
                st,
                segments_ops(data.segments)[k],
            ) by {
                assert(segments_ops(data.segments)[k] == segment_op(data.segments[k]));
            }
        },
        _ => {},
    }
}

/// Style exclusivity: a primitive with a fill style never records a stroke
/// paint-state mutation or stroke commit, and a primitive with a stroke
/// style never records a fill one; the line width is set only for strokes.
pub proof fn lemma_style_exclusivity(p: PrimitiveView)
    ensures
        style_of(p) is Fill ==> forall|i: int|
            0 <= i < prim_ops(p).len() ==> !is_stroke_paint(#[trigger] prim_ops(p)[i]),
        style_of(p) is Stroke ==> forall|i: int|
            0 <= i < prim_ops(p).len() ==> !is_fill_paint(#[trigger] prim_ops(p)[i]),
{
    lemma_prim_ops_consistent(p);
}

/// The operations of a draw list never include a clear.
proof fn lemma_body_ops_no_clear(prims: Seq<PrimitiveView>)
    ensures
        forall|i: int| 0 <= i < body_ops(prims).len() ==> !(#[trigger] body_ops(prims)[i] is Clear),
    decreases prims.len(),
{
    if prims.len() > 0 {
        lemma_body_ops_no_clear(prims.drop_last());
        lemma_prim_ops_consistent(prims.last());
    }
}

/// Frame isolation: the operations of one frame begin with exactly one
/// clear and contain no other; so in two consecutive frames each frame's
/// draws are preceded by that frame's own clear and nothing drawn earlier
/// survives it.
pub proof fn lemma_frame_isolation(prims: Seq<PrimitiveView>)
    ensures
        frame_ops(prims).len() >= 1,
        frame_ops(prims)[0] == AbsOp::Clear,
        forall|i: int| 1 <= i < frame_ops(prims).len() ==> !(#[trigger] frame_ops(prims)[i] is Clear),
{
    lemma_body_ops_no_clear(prims);
}

} // verus!
