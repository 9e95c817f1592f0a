use vstd::prelude::*;

verus! {

/// The parameters of one indexed, instanced draw.
#[derive(Clone, Copy, Debug, PartialEq, Eq, Structural)]
pub struct IndexedDraw {
    pub index_count: u32,
    pub instance_count: u32,
    pub first_index: u32,
    pub base_vertex: i32,
    pub first_instance: u32,
}

/// The parameters of one non-indexed draw.
#[derive(Clone, Copy, Debug, PartialEq, Eq, Structural)]
pub struct Draw {
    pub vertex_count: u32,
    pub instance_count: u32,
    pub first_vertex: u32,
    pub first_instance: u32,
}

/// A draw of all `index_count` indices once per instance, or nothing when
/// there are no instances.
pub open spec fn instanced(index_count: u32, instance_count: u32) -> Option<IndexedDraw> {
    if instance_count == 0 {
        None
    } else {
        Some(
            IndexedDraw {
                index_count,
                instance_count,
                first_index: 0,
                base_vertex: 0,
                first_instance: 0,
            },
        )
    }
}

pub fn instanced_draw(index_count: u32, instance_count: u32) -> (r: Option<IndexedDraw>)
    ensures
        r == instanced(index_count, instance_count),
        r is None <==> instance_count == 0,
{
    if instance_count == 0 {
        None
    } else {
        Some(
            IndexedDraw {
                index_count,
                instance_count,
                first_index: 0,
                base_vertex: 0,
                first_instance: 0,
            },
        )
    }
}

/// Draws one outlined rectangle per bounding rectangle: a line strip through
/// the four corners back to the first, its corners made in the vertex stage
/// from the instance's entry in the bounds buffer.
pub struct BoundingRectsPass {
    indices: Vec<u32>,
}

impl BoundingRectsPass {
    pub closed spec fn indices_spec(&self) -> Seq<u32> {
        self.indices@
    }

    pub fn init() -> (r: BoundingRectsPass)
        ensures
            r.indices_spec() == seq![0u32, 1, 2, 3, 0],
    {
        BoundingRectsPass { indices: vec![0, 1, 2, 3, 0] }
    }

    /// The strip's indices, to be uploaded as the index buffer.
    pub fn indices(&self) -> (r: &Vec<u32>)
        ensures
            r@ == self.indices_spec(),
    {
        &self.indices
    }

    /// The draw for `rect_count` rectangles; nothing when there are none.
    pub fn render_bundle(&self, rect_count: u32) -> (r: Option<IndexedDraw>)
        requires
            self.indices_spec() == seq![0u32, 1, 2, 3, 0],
        ensures
            r == instanced(5, rect_count),
            r is None <==> rect_count == 0,
            r matches Some(d) ==> d.instance_count == rect_count,
    {
        instanced_draw(self.indices.len() as u32, rect_count)
    }
}

/// Draws one line segment per long axis, made in the vertex stage from the
/// instance's entry in the axes buffer.
pub struct LongAxesPass {
    indices: Vec<u32>,
}

impl LongAxesPass {
    pub closed spec fn indices_spec(&self) -> Seq<u32> {
        self.indices@
    }

    pub fn init() -> (r: LongAxesPass)
        ensures
            r.indices_spec() == seq![0u32, 1],
    {
        LongAxesPass { indices: vec![0, 1] }
    }

    pub fn indices(&self) -> (r: &Vec<u32>)
        ensures
            r@ == self.indices_spec(),
    {
        &self.indices
    }

    /// The draw for `axis_count` segments; nothing when there are none.
    pub fn render_bundle(&self, axis_count: u32) -> (r: Option<IndexedDraw>)
        requires
            self.indices_spec() == seq![0u32, 1],
        ensures
            r == instanced(2, axis_count),
            r is None <==> axis_count == 0,
            r matches Some(d) ==> d.instance_count == axis_count,
    {
        instanced_draw(self.indices.len() as u32, axis_count)
    }
}

/// A vertex of the circle fan: its centre, or the rim point at angle
/// `2 * pi * step / steps`.
#[derive(Clone, Copy, Debug, PartialEq, Eq, Structural)]
pub enum FanVertex {
    Centre,
    Rim { step: u32, steps: u32 },
}

/// The fan's vertices: the centre, then the rim points in order of angle.
pub open spec fn fan_vertices(s: nat) -> Seq<FanVertex> {
    seq![FanVertex::Centre] + Seq::new(s, |i: int| FanVertex::Rim { step: i as u32, steps: s as u32 })
}

/// The fan's triangle-list indices: triangle `i` joins the centre with rim
/// points `i` and `i + 1`, the last one closing back to rim point `0`.
pub open spec fn fan_indices(s: nat) -> Seq<u32> {
    Seq::new(
        3 * s,
        |t: int|
            {
                let i = t / 3;
                if t % 3 == 0 {
                    0u32
                } else if t % 3 == 1 {
                    (i + 1) as u32
                } else {
                    ((i + 1) % (s as int) + 1) as u32
                }
            },
    )
}

/// A unit circle as a triangle fan of `subdivisions` triangles.
pub struct CircleData {
    pub vertices: Vec<FanVertex>,
    pub indices: Vec<u32>,
}

impl CircleData {
    pub fn new(subdivisions: usize) -> (r: CircleData)
        requires
            subdivisions < u32::MAX,
        ensures
            r.vertices@ == fan_vertices(subdivisions as nat),
            r.indices@ == fan_indices(subdivisions as nat),
            r.vertices@.len() == subdivisions + 1,
            r.indices@.len() == 3 * subdivisions,
            forall|k: int| 0 <= k < r.indices@.len() ==> #[trigger] r.indices@[k] < r.vertices@.len(),
    {
        let s = subdivisions;
        let mut vertices: Vec<FanVertex> = Vec::new();
        let mut indices: Vec<u32> = Vec::new();
        vertices.push(FanVertex::Centre);
        let mut i: usize = 0;
        while i < s
            invariant
                s == subdivisions,
                s < u32::MAX,
                i <= s,
                vertices@ == seq![FanVertex::Centre] + Seq::new(
                    i as nat,
                    |k: int| FanVertex::Rim { step: k as u32, steps: s as u32 },
                ),
                indices@ == fan_indices(s as nat).take(3 * i),
            decreases s - i,
        {
            let next = (i + 1) % s + 1;
            vertices.push(FanVertex::Rim { step: i as u32, steps: s as u32 });
            indices.push(0);
            indices.push((i + 1) as u32);
            indices.push(next as u32);
            proof {
                let f = fan_indices(s as nat);
                assert(f[3 * i] == 0u32);
                assert(f[3 * i + 1] == (i + 1) as u32);
                assert(f[3 * i + 2] == next as u32);
                assert(f.take(3 * i + 3) =~= f.take(3 * i).push(0u32).push((i + 1) as u32).push(
                    next as u32,
                ));
            }
            i = i + 1;
        }
        assert(fan_indices(s as nat).take(3 * s) =~= fan_indices(s as nat));
        assert(vertices@ =~= fan_vertices(s as nat));
        assert forall|k: int| 0 <= k < indices@.len() implies #[trigger] indices@[k] < vertices@.len() by {
            let i = k / 3;
            assert(0 <= i < s);
            assert((i + 1) % (s as int) < s);
        }
        CircleData { vertices, indices }
    }
}

/// Draws one alpha-blended filled circle per occluder circle, from the fan
/// mesh made at construction.
pub struct OccluderCirclesPass {
    mesh: CircleData,
}

impl OccluderCirclesPass {
    pub closed spec fn mesh_spec(&self) -> (Seq<FanVertex>, Seq<u32>) {
        (self.mesh.vertices@, self.mesh.indices@)
    }

    pub fn init(subdivisions: usize) -> (r: OccluderCirclesPass)
        requires
            subdivisions < u32::MAX / 3,
        ensures
            r.mesh_spec() == (fan_vertices(subdivisions as nat), fan_indices(subdivisions as nat)),
    {
        OccluderCirclesPass { mesh: CircleData::new(subdivisions) }
    }

    pub fn mesh(&self) -> (r: &CircleData)
        ensures
            (r.vertices@, r.indices@) == self.mesh_spec(),
    {
        &self.mesh
    }

    /// The draw for `circle_count` circles; nothing when there are none.
    pub fn render_bundle(&self, circle_count: u32) -> (r: Option<IndexedDraw>)
        requires
            self.mesh_spec().1.len() <= u32::MAX,
        ensures
            r == instanced(self.mesh_spec().1.len() as u32, circle_count),
            r is None <==> circle_count == 0,
            r matches Some(d) ==> d.instance_count == circle_count,
    {
        instanced_draw(self.mesh.indices.len() as u32, circle_count)
    }
}

/// A circle pass made with `subdivisions` triangles draws its whole fan,
/// `3 * subdivisions` indices, once per circle, and nothing without circles.
pub proof fn lemma_circle_draw(p: OccluderCirclesPass, subdivisions: nat, circle_count: u32)
    requires
        subdivisions < u32::MAX / 3,
        p.mesh_spec() == (fan_vertices(subdivisions), fan_indices(subdivisions)),
    ensures
        p.mesh_spec().1.len() <= u32::MAX,
        instanced(p.mesh_spec().1.len() as u32, circle_count) == (if circle_count == 0 {
            None
        } else {
            Some(
                IndexedDraw {
                    index_count: (3 * subdivisions) as u32,
                    instance_count: circle_count,
                    first_index: 0,
                    base_vertex: 0,
                    first_instance: 0,
                },
            )
        }),
{
}

/// The draw of `sphere_count` instances of a sphere mesh of
/// `mesh_index_count` indices; nothing when there are no spheres.
pub fn spheres_draw(mesh_index_count: u32, sphere_count: u32) -> (r: Option<IndexedDraw>)
    ensures
        r == instanced(mesh_index_count, sphere_count),
        r is None <==> sphere_count == 0,
        r matches Some(d) ==> d.instance_count == sphere_count,
{
    instanced_draw(mesh_index_count, sphere_count)
}

/// The single draw of all grid lines.
pub fn grids_draw(index_count: u32) -> (r: IndexedDraw)
    ensures
        r == (IndexedDraw {
            index_count,
            instance_count: 1,
            first_index: 0,
            base_vertex: 0,
            first_instance: 0,
        }),
{
    IndexedDraw { index_count, instance_count: 1, first_index: 0, base_vertex: 0, first_instance: 0 }
}

/// Vertices of the full-screen quad, drawn as a triangle strip.
pub const SKY_QUAD_VERTICES: u32 = 4;

/// The single draw of the sky's full-screen quad.
pub fn sky_draw() -> (r: Draw)
    ensures
        r == (Draw {
            vertex_count: SKY_QUAD_VERTICES,
            instance_count: 1,
            first_vertex: 0,
            first_instance: 0,
        }),
{
    Draw { vertex_count: SKY_QUAD_VERTICES, instance_count: 1, first_vertex: 0, first_instance: 0 }
}

} // verus!
