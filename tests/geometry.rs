use sphere_viewer::dispatch::{
    compute_dispatch, workgroup_count, DispatchWorkgroups, LengthMismatch, GROUP_SIZE,
};
use sphere_viewer::frame::{bundle_order, plan_frame, BundleSlot};
use sphere_viewer::grid::{build_grid_mesh, Grid, GridMeshError, GridVertex};
use sphere_viewer::passes::{
    grids_draw, instanced_draw, sky_draw, spheres_draw, BoundingRectsPass, CircleData, Draw,
    FanVertex, IndexedDraw, LongAxesPass, OccluderCirclesPass,
};

fn draw(index_count: u32, instance_count: u32) -> IndexedDraw {
    IndexedDraw { index_count, instance_count, first_index: 0, base_vertex: 0, first_instance: 0 }
}

#[test]
fn one_cell_grid_is_its_boundary() {
    let mesh = build_grid_mesh(&vec![Grid::new(1, 1)]).unwrap();
    assert_eq!(mesh.vertices.len(), 4);
    assert_eq!(
        mesh.vertices,
        vec![
            GridVertex { grid: 0, x: -1, y: -1 },
            GridVertex { grid: 0, x: 1, y: -1 },
            GridVertex { grid: 0, x: -1, y: 1 },
            GridVertex { grid: 0, x: 1, y: 1 },
        ]
    );
    // Four boundary lines, counter-clockwise, and no inner line.
    assert_eq!(mesh.indices, vec![0, 1, 1, 3, 3, 2, 2, 0]);
}

#[test]
fn twenty_by_twenty_grid_counts() {
    let mesh = build_grid_mesh(&vec![Grid::new(20, 20)]).unwrap();
    assert_eq!(mesh.vertices.len(), 441);
    assert_eq!(mesh.indices.len(), 84);
    assert!(mesh.indices.iter().all(|&i| (i as usize) < 441));
}

#[test]
fn grid_inner_lines() {
    // Two cells wide, one high: lattice of 3 by 2 points.
    let mesh = build_grid_mesh(&vec![Grid::new(2, 1)]).unwrap();
    assert_eq!(mesh.vertices.len(), 6);
    assert_eq!(mesh.vertices[1], GridVertex { grid: 0, x: 0, y: -1 });
    assert_eq!(mesh.vertices[5], GridVertex { grid: 0, x: 2, y: 1 });
    assert_eq!(mesh.indices, vec![0, 2, 2, 5, 5, 3, 3, 0, 1, 4]);
    // One cell wide, two high: one inner row.
    let mesh = build_grid_mesh(&vec![Grid::new(1, 2)]).unwrap();
    assert_eq!(mesh.indices, vec![0, 1, 1, 5, 5, 4, 4, 0, 2, 3]);
}

#[test]
fn grid_counts_follow_size() {
    for (w, h) in [(1usize, 1usize), (3, 5), (7, 2), (20, 20)] {
        let mesh = build_grid_mesh(&vec![Grid::new(w, h)]).unwrap();
        assert_eq!(mesh.vertices.len(), (w + 1) * (h + 1));
        assert_eq!(mesh.indices.len(), 4 + 2 * (w + h));
    }
}

#[test]
fn second_grid_indices_follow_first_grid_vertices() {
    let mesh = build_grid_mesh(&vec![Grid::new(1, 1), Grid::new(1, 1)]).unwrap();
    assert_eq!(mesh.vertices.len(), 8);
    assert_eq!(mesh.vertices[4], GridVertex { grid: 1, x: -1, y: -1 });
    assert_eq!(&mesh.indices[8..], &[4, 5, 5, 7, 7, 6, 6, 4]);
}

#[test]
fn no_grids_no_mesh() {
    let mesh = build_grid_mesh(&vec![]).unwrap();
    assert!(mesh.vertices.is_empty());
    assert!(mesh.indices.is_empty());
}

#[test]
fn empty_grid_is_refused() {
    assert_eq!(build_grid_mesh(&vec![Grid::new(0, 3)]).err(), Some(GridMeshError::EmptyGrid));
    assert_eq!(
        build_grid_mesh(&vec![Grid::new(2, 2), Grid::new(4, 0)]).err(),
        Some(GridMeshError::EmptyGrid)
    );
}

#[test]
fn too_many_vertices_is_refused() {
    // 256 by 257 points: 65792 vertices.
    assert_eq!(
        build_grid_mesh(&vec![Grid::new(255, 256)]).err(),
        Some(GridMeshError::TooManyVertices)
    );
    assert_eq!(
        build_grid_mesh(&vec![Grid::new(1, usize::MAX)]).err(),
        Some(GridMeshError::TooManyVertices)
    );
    assert_eq!(
        build_grid_mesh(&vec![Grid::new(255, 255), Grid::new(1, 1)]).err(),
        Some(GridMeshError::TooManyVertices)
    );
}

#[test]
fn largest_grid_fits_sixteen_bits() {
    // 256 by 256 points: exactly 65536 vertices.
    let mesh = build_grid_mesh(&vec![Grid::new(255, 255)]).unwrap();
    assert_eq!(mesh.vertices.len(), 65536);
    assert_eq!(*mesh.indices.iter().max().unwrap(), 65535);
}

#[test]
fn grid_setters() {
    let mut g = Grid::new(3, 4);
    g.set_width(6);
    g.set_height(1);
    assert_eq!((g.width(), g.height()), (6, 1));
}

#[test]
fn empty_collections_draw_nothing() {
    let rects = BoundingRectsPass::init();
    let axes = LongAxesPass::init();
    let circles = OccluderCirclesPass::init(16);
    assert_eq!(rects.render_bundle(0), None);
    assert_eq!(axes.render_bundle(0), None);
    assert_eq!(circles.render_bundle(0), None);
    assert_eq!(spheres_draw(960, 0), None);
    assert_eq!(instanced_draw(3, 0), None);
}

#[test]
fn instance_count_matches_collection() {
    let rects = BoundingRectsPass::init();
    let axes = LongAxesPass::init();
    let circles = OccluderCirclesPass::init(16);
    assert_eq!(rects.render_bundle(7), Some(draw(5, 7)));
    assert_eq!(axes.render_bundle(1), Some(draw(2, 1)));
    assert_eq!(circles.render_bundle(3), Some(draw(48, 3)));
    assert_eq!(spheres_draw(960, 12), Some(draw(960, 12)));
    assert_eq!(rects.indices(), &vec![0, 1, 2, 3, 0]);
    assert_eq!(axes.indices(), &vec![0, 1]);
}

#[test]
fn backdrop_draws() {
    assert_eq!(grids_draw(84), draw(84, 1));
    assert_eq!(
        sky_draw(),
        Draw { vertex_count: 4, instance_count: 1, first_vertex: 0, first_instance: 0 }
    );
}

#[test]
fn circle_fan_mesh() {
    let fan = CircleData::new(3);
    assert_eq!(
        fan.vertices,
        vec![
            FanVertex::Centre,
            FanVertex::Rim { step: 0, steps: 3 },
            FanVertex::Rim { step: 1, steps: 3 },
            FanVertex::Rim { step: 2, steps: 3 },
        ]
    );
    assert_eq!(fan.indices, vec![0, 1, 2, 0, 2, 3, 0, 3, 1]);
    let pass = OccluderCirclesPass::init(3);
    assert_eq!(pass.mesh().indices, fan.indices);
}

#[test]
fn circle_fan_without_subdivisions() {
    let fan = CircleData::new(0);
    assert_eq!(fan.vertices, vec![FanVertex::Centre]);
    assert!(fan.indices.is_empty());
}

#[test]
fn workgroup_counts() {
    assert_eq!(GROUP_SIZE, 256);
    assert_eq!(workgroup_count(0), 0);
    assert_eq!(workgroup_count(1), 1);
    assert_eq!(workgroup_count(256), 1);
    assert_eq!(workgroup_count(257), 2);
    assert_eq!(workgroup_count(1000), 4);
    assert_eq!(workgroup_count(u32::MAX), 16777216);
}

#[test]
fn dispatch_needs_aligned_output() {
    assert_eq!(
        compute_dispatch(10, 9),
        Err(LengthMismatch { sphere_count: 10, output_len: 9 })
    );
    for n in [0u32, 1, 255, 256, 513] {
        let d = compute_dispatch(n, n).unwrap();
        assert_eq!(d, DispatchWorkgroups { count_x: workgroup_count(n), count_y: 1, count_z: 1 });
        assert!(d.count_x * GROUP_SIZE >= n);
    }
}

#[test]
fn frame_without_spheres_draws_backdrop_only() {
    let rects = BoundingRectsPass::init();
    let axes = LongAxesPass::init();
    let plan = plan_frame(&rects, &axes, 960, 0, 0, 0);
    assert_eq!(plan.order, vec![BundleSlot::Grids, BundleSlot::Sky]);
    assert_eq!(plan.spheres, None);
    assert_eq!(plan.bounding_rects, None);
    assert_eq!(plan.long_axes, None);
}

#[test]
fn frame_order_is_fixed() {
    let rects = BoundingRectsPass::init();
    let axes = LongAxesPass::init();
    let plan = plan_frame(&rects, &axes, 960, 1, 1, 1);
    assert_eq!(
        plan.order,
        vec![
            BundleSlot::Grids,
            BundleSlot::Sky,
            BundleSlot::Spheres,
            BundleSlot::BoundingRects,
            BundleSlot::LongAxes,
        ]
    );
    assert_eq!(plan.spheres, Some(draw(960, 1)));
    assert_eq!(plan.bounding_rects, Some(draw(5, 1)));
    assert_eq!(plan.long_axes, Some(draw(2, 1)));
    let order = bundle_order(&None, &Some(draw(5, 2)), &None);
    assert_eq!(order, vec![BundleSlot::Grids, BundleSlot::Sky, BundleSlot::BoundingRects]);
}
