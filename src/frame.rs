use vstd::prelude::*;

use crate::passes::{instanced, BoundingRectsPass, IndexedDraw, LongAxesPass, spheres_draw};

verus! {

/// The draw bundles of the main render pass.
#[derive(Clone, Copy, Debug, PartialEq, Eq, Structural)]
pub enum BundleSlot {
    Grids,
    Sky,
    Spheres,
    BoundingRects,
    LongAxes,
}

/// The bundles in the order they run: the grid and sky backdrops first,
/// then each of spheres, bounding rectangles and long axes that has
/// something to draw.
pub open spec fn execution_order(spheres: bool, bounding_rects: bool, long_axes: bool) -> Seq<
    BundleSlot,
> {
    seq![BundleSlot::Grids, BundleSlot::Sky] + (if spheres {
        seq![BundleSlot::Spheres]
    } else {
        Seq::empty()
    }) + (if bounding_rects {
        seq![BundleSlot::BoundingRects]
    } else {
        Seq::empty()
    }) + (if long_axes {
        seq![BundleSlot::LongAxes]
    } else {
        Seq::empty()
    })
}

/// One frame's draws, and the order in which their bundles run.
pub struct FramePlan {
    pub spheres: Option<IndexedDraw>,
    pub bounding_rects: Option<IndexedDraw>,
    pub long_axes: Option<IndexedDraw>,
    pub order: Vec<BundleSlot>,
}

/// The order in which the bundles run, skipping the ones that are absent.
pub fn bundle_order(
    spheres: &Option<IndexedDraw>,
    bounding_rects: &Option<IndexedDraw>,
    long_axes: &Option<IndexedDraw>,
) -> (r: Vec<BundleSlot>)
    ensures
        r@ == execution_order(spheres is Some, bounding_rects is Some, long_axes is Some),
{
    let mut order: Vec<BundleSlot> = vec![BundleSlot::Grids, BundleSlot::Sky];
    if spheres.is_some() {
        order.push(BundleSlot::Spheres);
    }
    if bounding_rects.is_some() {
        order.push(BundleSlot::BoundingRects);
    }
    if long_axes.is_some() {
        order.push(BundleSlot::LongAxes);
    }
    assert(order@ =~= execution_order(
        spheres is Some,
        bounding_rects is Some,
        long_axes is Some,
    ));
    order
}

/// Plans one frame of the main render pass: a draw of the sphere mesh per
/// sphere, of a rectangle per bounding rectangle and of a segment per long
/// axis, each absent when it has no instance, in the fixed bundle order.
pub fn plan_frame(
    bounding_rects_pass: &BoundingRectsPass,
    long_axes_pass: &LongAxesPass,
    sphere_mesh_index_count: u32,
    sphere_count: u32,
    bounds_count: u32,
    axes_count: u32,
) -> (r: FramePlan)
    requires
        bounding_rects_pass.indices_spec() == seq![0u32, 1, 2, 3, 0],
        long_axes_pass.indices_spec() == seq![0u32, 1],
    ensures
        r.spheres == instanced(sphere_mesh_index_count, sphere_count),
        r.bounding_rects == instanced(5, bounds_count),
        r.long_axes == instanced(2, axes_count),
        r.order@ == execution_order(sphere_count > 0, bounds_count > 0, axes_count > 0),
{
    let spheres = spheres_draw(sphere_mesh_index_count, sphere_count);
    let bounding_rects = bounding_rects_pass.render_bundle(bounds_count);
    let long_axes = long_axes_pass.render_bundle(axes_count);
    let order = bundle_order(&spheres, &bounding_rects, &long_axes);
    FramePlan { spheres, bounding_rects, long_axes, order }
}

} // verus!
