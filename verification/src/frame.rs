//! Frame orchestration.
//!
//! A frame is one full redraw: the surface is cleared, then every primitive
//! of the scene's draw list is rendered strictly in list order (list order
//! is the z-order: later primitives draw over earlier ones).  The scene
//! producer is the external collaborator that supplies the draw list for a
//! timestamp; `tick` queries it once and renders the result.

use vstd::prelude::*;

use crate::painter::{
    draw_ellipse, draw_line, draw_path, draw_polygon, draw_rect, draw_text, ellipse_ops, line_ops,
    path_ops, polygon_ops, rect_ops, text_ops, RenderError,
};
use crate::primitives::{GeometricPrimitive, PrimitiveView};
use crate::surface::{AbsOp, Surface};

verus! {

/// The operations that render one primitive.
pub open spec fn prim_ops(p: PrimitiveView) -> Seq<AbsOp> {
    match p {
        PrimitiveView::Rectangle { data, styles } => rect_ops(data, styles),
        PrimitiveView::Line { data, styles } => line_ops(data, styles),
        PrimitiveView::Text { data, styles } => text_ops(data, styles),
        PrimitiveView::Ellipse { data, styles } => ellipse_ops(data, styles),
        PrimitiveView::Polygon { points, styles } => polygon_ops(points, styles),
        PrimitiveView::Path { data, styles } => path_ops(data, styles),
    }
}

/// A primitive meets the renderer's precondition: a polygon has at least
/// one point.  Every other primitive is always renderable.
pub open spec fn prim_ok(p: PrimitiveView) -> bool {
    match p {
        PrimitiveView::Polygon { points, .. } => points.len() >= 1,
        _ => true,
    }
}

/// Every primitive of the draw list meets the renderer's precondition.
pub open spec fn all_ok(prims: Seq<PrimitiveView>) -> bool {
    forall|i: int| 0 <= i < prims.len() ==> prim_ok(prims[i])
}

/// The mathematical value of a draw list.
pub open spec fn prims_view(prims: Seq<GeometricPrimitive>) -> Seq<PrimitiveView> {
    prims.map_values(|p: GeometricPrimitive| p@)
}

/// The operations of a draw list rendered in list order.
pub open spec fn body_ops(prims: Seq<PrimitiveView>) -> Seq<AbsOp>
    decreases prims.len(),
{
    if prims.len() == 0 {
        Seq::empty()
    } else {
        body_ops(prims.drop_last()) + prim_ops(prims.last())
    }
}

/// The operations of one whole frame: a clear, then the draw list.
pub open spec fn frame_ops(prims: Seq<PrimitiveView>) -> Seq<AbsOp> {
    seq![AbsOp::Clear] + body_ops(prims)
}

/// Rendering stopped at index `k`: the primitive there violates the
/// renderer's precondition and every earlier one was rendered.
pub open spec fn failed_at(prims: Seq<PrimitiveView>, k: int) -> bool {
    &&& 0 <= k < prims.len()
    &&& !prim_ok(prims[k])
    &&& forall|j: int| 0 <= j < k ==> prim_ok(prims[j])
}

/// Render one primitive: dispatch on its shape variant.  A primitive that
/// violates the renderer's precondition leaves the surface untouched and
/// returns the defined error.
pub fn render_primitive(s: &mut Surface, prim: &GeometricPrimitive) -> (r: Result<
    (),
    RenderError,
>)
    ensures
        prim_ok(prim@) ==> r is Ok
            && final(s)@ == old(s)@ + prim_ops(prim@),
        !prim_ok(prim@) ==> r == Err::<(), RenderError>(RenderError::EmptyPolygon)
            && final(s)@ == old(s)@,
{
    match prim {
        GeometricPrimitive::Rectangle { data, styles } => {
            draw_rect(s, data, styles);
            Ok(())
        },
        GeometricPrimitive::Line { data, styles } => {
            draw_line(s, data, styles);
            Ok(())
        },
        GeometricPrimitive::Text { data, styles } => {
            draw_text(s, data, styles);
            Ok(())
        },
        GeometricPrimitive::Ellipse { data, styles } => {
            draw_ellipse(s, data, styles);
            Ok(())
        },
        GeometricPrimitive::Polygon { points, styles } => draw_polygon(s, points, styles),
        GeometricPrimitive::Path { data, styles } => {
            draw_path(s, data, styles);
            Ok(())
        },
    }
}

/// Render a whole draw list in list order.  Rendering stops at the first
/// primitive that violates the renderer's precondition; everything drawn up
/// to that point stays on the surface and the defined error is returned.
pub fn draw_primitives(s: &mut Surface, prims: &Vec<GeometricPrimitive>) -> (r: Result<
    (),
    RenderError,
>)
    ensures
        r is Ok <==> all_ok(prims_view(prims@)),
        r is Ok ==> final(s)@ == old(s)@ + body_ops(prims_view(prims@)),
        r is Err ==> r == Err::<(), RenderError>(RenderError::EmptyPolygon) && exists|k: int|
            #[trigger] failed_at(prims_view(prims@), k)
                && final(s)@ == old(s)@ + body_ops(prims_view(prims@).take(k)),
{
    let ghost pv = prims_view(prims@);
    let mut i: usize = 0;
    while i < prims.len()
        invariant
            i <= prims@.len(),
            pv == prims_view(prims@),
            pv.len() == prims@.len(),
            forall|j: int| 0 <= j < i ==> prim_ok(pv[j]),
            s@ == old(s)@ + body_ops(pv.take(i as int)),
        decreases prims@.len() - i,
    {
        let prim = &prims[i];
        proof {
            assert(prim@ == pv[i as int]);
        }
        let step = render_primitive(s, prim);
        if step.is_err() {
            proof {
                assert(failed_at(pv, i as int));
            }
            return Err(RenderError::EmptyPolygon);
        }
        proof {
            let taken = pv.take(i + 1 as int);
            assert(taken.drop_last() =~= pv.take(i as int));
            assert(taken.last() == pv[i as int]);
            assert(s@ =~= old(s)@ + body_ops(taken));
        }
        i = i + 1;
    }
    proof {
        assert(pv.take(pv.len() as int) =~= pv);
    }
    Ok(())
}

/// The scene producer: the external collaborator that computes the
/// complete, ordered draw list for a timestamp.  The renderer calls it once
/// per tick and treats the result as the whole frame.
pub trait SceneProducer {
    /// The draw list for the given timestamp.
    fn update(&mut self, timestamp: u64) -> Vec<GeometricPrimitive>;
}

/// One frame tick: clear the surface, query the scene producer once, then
/// render every primitive of its draw list in order.  Whatever the producer
/// returns, the prior transcript is untouched and the first new operation
/// is the clear, so nothing of an earlier frame survives this one.
pub fn tick<P: SceneProducer>(producer: &mut P, timestamp: u64, s: &mut Surface) -> (r: Result<
    (),
    RenderError,
>)
    ensures
        r is Ok ==> exists|prims: Seq<PrimitiveView>|
            #[trigger] all_ok(prims) && final(s)@ == old(s)@ + frame_ops(prims),
        r is Err ==> r == Err::<(), RenderError>(RenderError::EmptyPolygon) && exists|
            prims: Seq<PrimitiveView>,
            k: int,
        |
            #[trigger] failed_at(prims, k)
                && final(s)@ == old(s)@ + seq![AbsOp::Clear] + body_ops(prims.take(k)),
        final(s)@.len() > old(s)@.len(),
        final(s)@.take(old(s)@.len() as int) == old(s)@,
        final(s)@[old(s)@.len() as int] == AbsOp::Clear,
{
    s.clear();
    let prims = producer.update(timestamp);
    let r = draw_primitives(s, &prims);
    proof {
        let pv = prims_view(prims@);
        let cleared = old(s)@.push(AbsOp::Clear);
        if all_ok(pv) {
            assert(r is Ok);
            assert(s@ =~= old(s)@ + frame_ops(pv));
        } else {
            assert(r is Err);
            let k = choose|k: int|
                #[trigger] failed_at(pv, k) && s@ == cleared + body_ops(pv.take(k));
            assert(failed_at(pv, k) && s@ == cleared + body_ops(pv.take(k)));
            assert(s@ =~= old(s)@ + seq![AbsOp::Clear] + body_ops(pv.take(k)));
        }
        assert(s@.take(old(s)@.len() as int) =~= old(s)@);
    }
    r
}

} // verus!
