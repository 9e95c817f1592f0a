use vstd::prelude::*;

verus! {

/// The cell counts of a decorative grid. Its placement in the world (scale,
/// position, orientation) is applied to the mesh by whoever uploads it.
#[derive(Clone, Copy, Debug, PartialEq, Eq, Structural)]
pub struct Grid {
    pub width: usize,
    pub height: usize,
}

/// A vertex of a grid mesh: which grid it belongs to, and its position in
/// that grid's plane in half cells from the grid's centre (a grid of width
/// `w` spans `x` from `-w` to `w`).
#[derive(Clone, Copy, Debug, PartialEq, Eq, Structural)]
pub struct GridVertex {
    pub grid: usize,
    pub x: i64,
    pub y: i64,
}

/// The vertices and line-list indices of all grids together.
pub struct GridMesh {
    pub vertices: Vec<GridVertex>,
    pub indices: Vec<u16>,
}

#[derive(Clone, Copy, Debug, PartialEq, Eq, Structural)]
pub enum GridMeshError {
    /// A grid has no cells along one of its sides.
    EmptyGrid,
    /// The vertices cannot all be addressed by 16-bit indices.
    TooManyVertices,
}

/// Number of vertices that 16-bit indices can address.
pub const MAX_VERTICES: usize = 65536;

impl Grid {
    pub fn new(width: usize, height: usize) -> (r: Grid)
        ensures
            r == (Grid { width, height }),
    {
        Grid { width, height }
    }

    pub fn width(&self) -> (r: usize)
        ensures
            r == self.width,
    {
        self.width
    }

    pub fn set_width(&mut self, width: usize)
        ensures
            *final(self) == (Grid { width, height: old(self).height }),
    {
        self.width = width;
    }

    pub fn height(&self) -> (r: usize)
        ensures
            r == self.height,
    {
        self.height
    }

    pub fn set_height(&mut self, height: usize)
        ensures
            *final(self) == (Grid { width: old(self).width, height }),
    {
        self.height = height;
    }
}

/// Lattice point `(i, j)` of grid number `grid`, of width `w` and height `h`.
pub open spec fn lattice_vertex(grid: int, w: int, h: int, i: int, j: int) -> GridVertex {
    GridVertex { grid: grid as usize, x: (2 * i - w) as i64, y: (2 * j - h) as i64 }
}

/// Row `j` of the lattice: the points `(0, j)` to `(w, j)`.
pub open spec fn lattice_row(grid: int, w: int, h: int, j: int) -> Seq<GridVertex> {
    Seq::new((w + 1) as nat, |i: int| lattice_vertex(grid, w, h, i, j))
}

/// The first `rows` rows of the lattice, row after row.
pub open spec fn lattice_rows(grid: int, w: int, h: int, rows: nat) -> Seq<GridVertex>
    decreases rows,
{
    if rows == 0 {
        Seq::empty()
    } else {
        lattice_rows(grid, w, h, (rows - 1) as nat) + lattice_row(grid, w, h, rows - 1)
    }
}

/// The vertices of one grid: all `(w + 1) * (h + 1)` lattice points; point
/// `(i, j)` stands at `j * (w + 1) + i`.
pub open spec fn grid_vertices(grid: int, g: Grid) -> Seq<GridVertex> {
    lattice_rows(grid, g.width as int, g.height as int, (g.height + 1) as nat)
}

/// The line-list indices of one grid, relative to its first vertex: the
/// boundary rectangle counter-clockwise from `(0, 0)`, then one line per
/// inner column, then one per inner row.
pub open spec fn grid_line_indices(w: int, h: int) -> Seq<int> {
    let top = h * (w + 1);
    seq![0, w, w, top + w, top + w, top, top, 0] + Seq::new(
        (2 * (w - 1)) as nat,
        |t: int|
            if t % 2 == 0 {
                t / 2 + 1
            } else {
                top + t / 2 + 1
            },
    ) + Seq::new(
        (2 * (h - 1)) as nat,
        |t: int|
            if t % 2 == 0 {
                (t / 2 + 1) * (w + 1)
            } else {
                (t / 2 + 1) * (w + 1) + w
            },
    )
}

pub open spec fn vertex_count(g: Grid) -> int {
    (g.width + 1) * (g.height + 1)
}

/// Number of vertices of all grids together.
pub open spec fn vertex_total(grids: Seq<Grid>) -> int
    decreases grids.len(),
{
    if grids.len() == 0 {
        0
    } else {
        vertex_total(grids.drop_last()) + vertex_count(grids.last())
    }
}

/// The vertices of all grids, grid after grid.
pub open spec fn mesh_vertices(grids: Seq<Grid>) -> Seq<GridVertex>
    decreases grids.len(),
{
    if grids.len() == 0 {
        Seq::empty()
    } else {
        mesh_vertices(grids.drop_last()) + grid_vertices(grids.len() - 1, grids.last())
    }
}

/// The indices of all grids, each grid's indices offset by the number of
/// vertices before its own.
pub open spec fn mesh_indices(grids: Seq<Grid>) -> Seq<int>
    decreases grids.len(),
{
    if grids.len() == 0 {
        Seq::empty()
    } else {
        let base = vertex_total(grids.drop_last());
        mesh_indices(grids.drop_last()) + grid_line_indices(
            grids.last().width as int,
            grids.last().height as int,
        ).map_values(|v: int| v + base)
    }
}

pub open spec fn has_empty_grid(grids: Seq<Grid>) -> bool {
    exists|k: int| 0 <= k < grids.len() && (grids[k].width == 0 || grids[k].height == 0)
}

pub open spec fn as_ints(s: Seq<u16>) -> Seq<int> {
    s.map_values(|v: u16| v as int)
}

proof fn lemma_lattice_rows_len(grid: int, w: int, h: int, rows: nat)
    requires
        w >= 0,
    ensures
        lattice_rows(grid, w, h, rows).len() == rows * (w + 1),
    decreases rows,
{
    if rows > 0 {
        let r1: nat = (rows - 1) as nat;
        lemma_lattice_rows_len(grid, w, h, r1);
        assert(lattice_row(grid, w, h, r1 as int).len() == w + 1);
        assert(lattice_rows(grid, w, h, rows) == lattice_rows(grid, w, h, r1) + lattice_row(
            grid,
            w,
            h,
            r1 as int,
        ));
        assert(lattice_rows(grid, w, h, rows).len() == r1 * (w + 1) + (w + 1));
        assert(rows * (w + 1) == r1 * (w + 1) + (w + 1)) by (nonlinear_arith)
            requires
                r1 == rows - 1,
        ;
    } else {
        assert(lattice_rows(grid, w, h, rows).len() == 0);
        assert(rows * (w + 1) == 0);
    }
}

/// The lattice points of grid number `grid`, row after row.
fn build_grid_vertices(grid: usize, g: Grid) -> (r: Vec<GridVertex>)
    requires
        g.width < MAX_VERTICES,
        g.height < MAX_VERTICES,
    ensures
        r@ == grid_vertices(grid as int, g),
{
    let w = g.width;
    let h = g.height;
    let mut r: Vec<GridVertex> = Vec::new();
    let mut j: usize = 0;
    while j <= h
        invariant
            w == g.width,
            h == g.height,
            h < MAX_VERTICES,
            w < MAX_VERTICES,
            j <= h + 1,
            r@ == lattice_rows(grid as int, w as int, h as int, j as nat),
        decreases h + 1 - j,
    {
        let mut i: usize = 0;
        while i <= w
            invariant
                w == g.width,
                h == g.height,
                h < MAX_VERTICES,
                w < MAX_VERTICES,
                j <= h,
                i <= w + 1,
                r@ == lattice_rows(grid as int, w as int, h as int, j as nat) + lattice_row(
                    grid as int,
                    w as int,
                    h as int,
                    j as int,
                ).take(i as int),
            decreases w + 1 - i,
        {
            r.push(
                GridVertex {
                    grid,
                    x: 2 * (i as i64) - w as i64,
                    y: 2 * (j as i64) - h as i64,
                },
            );
            proof {
                let row = lattice_row(grid as int, w as int, h as int, j as int);
                assert(row.take(i + 1) =~= row.take(i as int).push(row[i as int]));
            }
            i = i + 1;
        }
        proof {
            let row = lattice_row(grid as int, w as int, h as int, j as int);
            assert(row.take(w + 1) =~= row);
        }
        j = j + 1;
    }
    r
}

spec fn boundary_indices(w: int, h: int, base: int) -> Seq<int> {
    let top = h * (w + 1);
    seq![0, w, w, top + w, top + w, top, top, 0].map_values(|v: int| v + base)
}

spec fn column_indices(w: int, h: int, base: int) -> Seq<int> {
    Seq::new(
        (2 * (w - 1)) as nat,
        |t: int|
            if t % 2 == 0 {
                t / 2 + 1 + base
            } else {
                h * (w + 1) + t / 2 + 1 + base
            },
    )
}

spec fn row_indices(w: int, h: int, base: int) -> Seq<int> {
    Seq::new(
        (2 * (h - 1)) as nat,
        |t: int|
            if t % 2 == 0 {
                (t / 2 + 1) * (w + 1) + base
            } else {
                (t / 2 + 1) * (w + 1) + w + base
            },
    )
}

/// The line-list indices of one grid whose first vertex is at `base`.
fn build_grid_indices(base: usize, w: usize, h: usize) -> (r: Vec<u16>)
    requires
        1 <= w,
        1 <= h,
        base + (w + 1) * (h + 1) <= MAX_VERTICES,
    ensures
        as_ints(r@) == grid_line_indices(w as int, h as int).map_values(|v: int| v + base),
        forall|k: int|
            0 <= k < r@.len() ==> base <= #[trigger] r@[k] < base + (w + 1) * (h + 1),
{
    let ghost top_i: int = h * (w + 1);
    let ghost limit: int = base + (w + 1) * (h + 1);
    let ghost bnd = boundary_indices(w as int, h as int, base as int);
    let ghost cols = column_indices(w as int, h as int, base as int);
    let ghost rows = row_indices(w as int, h as int, base as int);
    assert((w + 1) * (h + 1) == top_i + w + 1) by (nonlinear_arith)
        requires
            top_i == h * (w + 1),
    ;
    let top: usize = h * (w + 1);
    let mut r: Vec<u16> = Vec::new();
    r.push(base as u16);
    r.push((base + w) as u16);
    r.push((base + w) as u16);
    r.push((base + top + w) as u16);
    r.push((base + top + w) as u16);
    r.push((base + top) as u16);
    r.push((base + top) as u16);
    r.push(base as u16);
    assert(as_ints(r@) =~= bnd);
    let mut i: usize = 1;
    while i < w
        invariant
            1 <= i <= w,
            top == top_i,
            top_i == h * (w + 1),
            limit == base + top_i + w + 1,
            limit <= MAX_VERTICES,
            bnd == boundary_indices(w as int, h as int, base as int),
            cols == column_indices(w as int, h as int, base as int),
            as_ints(r@) =~= bnd + cols.take(2 * (i - 1)),
            forall|k: int| 0 <= k < r@.len() ==> base <= #[trigger] r@[k] < limit,
        decreases w - i,
    {
        let ghost before = as_ints(r@);
        assert(cols[2 * (i - 1)] == base + i);
        assert(cols[2 * (i - 1) + 1] == top_i + i + base);
        r.push((base + i) as u16);
        r.push((base + top + i) as u16);
        assert(as_ints(r@) =~= before.push(base + i).push(base + top + i));
        assert(bnd + cols.take(2 * i) =~= (bnd + cols.take(2 * (i - 1))).push(base + i).push(
            base + top + i,
        ));
        i = i + 1;
    }
    assert(cols.take(2 * (w - 1)) =~= cols);
    let mut j: usize = 1;
    while j < h
        invariant
            1 <= j <= h,
            top == top_i,
            top_i == h * (w + 1),
            limit == base + top_i + w + 1,
            limit <= MAX_VERTICES,
            bnd == boundary_indices(w as int, h as int, base as int),
            cols == column_indices(w as int, h as int, base as int),
            rows == row_indices(w as int, h as int, base as int),
            as_ints(r@) =~= bnd + cols + rows.take(2 * (j - 1)),
            forall|k: int| 0 <= k < r@.len() ==> base <= #[trigger] r@[k] < limit,
        decreases h - j,
    {
        assert(j * (w + 1) + w < top_i) by (nonlinear_arith)
            requires
                j < h,
                top_i == h * (w + 1),
        ;
        let row = j * (w + 1);
        let ghost before = as_ints(r@);
        assert(rows[2 * (j - 1)] == row + base);
        assert(rows[2 * (j - 1) + 1] == row + w + base);
        r.push((base + row) as u16);
        r.push((base + row + w) as u16);
        assert(as_ints(r@) =~= before.push(base + row).push(base + row + w));
        assert(bnd + cols + rows.take(2 * j) =~= (bnd + cols + rows.take(2 * (j - 1))).push(
            base + row,
        ).push(base + row + w));
        j = j + 1;
    }
    assert(rows.take(2 * (h - 1)) =~= rows);
    assert(as_ints(r@) =~= grid_line_indices(w as int, h as int).map_values(|v: int| v + base));
    r
}

proof fn lemma_mesh_vertices_len(grids: Seq<Grid>)
    ensures
        mesh_vertices(grids).len() == vertex_total(grids),
    decreases grids.len(),
{
    if grids.len() > 0 {
        let g = grids.last();
        lemma_mesh_vertices_len(grids.drop_last());
        lemma_lattice_rows_len(
            (grids.len() - 1) as int,
            g.width as int,
            g.height as int,
            (g.height + 1) as nat,
        );
        assert((g.height + 1) * (g.width + 1) == (g.width + 1) * (g.height + 1)) by (
        nonlinear_arith);
    }
}

proof fn lemma_vertex_total_prefix(grids: Seq<Grid>, k: int)
    requires
        0 <= k <= grids.len(),
    ensures
        0 <= vertex_total(grids.take(k)) <= vertex_total(grids),
    decreases grids.len(),
{
    if k == grids.len() {
        assert(grids.take(k) =~= grids);
        lemma_vertex_total_nonneg(grids);
    } else {
        lemma_vertex_total_prefix(grids.drop_last(), k);
        assert(grids.drop_last().take(k) =~= grids.take(k));
        let g = grids.last();
        assert((g.width + 1) * (g.height + 1) >= 0) by (nonlinear_arith);
    }
}

proof fn lemma_vertex_total_nonneg(grids: Seq<Grid>)
    ensures
        vertex_total(grids) >= 0,
    decreases grids.len(),
{
    if grids.len() > 0 {
        lemma_vertex_total_nonneg(grids.drop_last());
        let g = grids.last();
        assert((g.width + 1) * (g.height + 1) >= 0) by (nonlinear_arith);
    }
}

/// A single grid of `w` by `h` cells yields `(w + 1) * (h + 1)` vertices and
/// `4 + 2 * (w + h)` indices: the boundary rectangle and the inner lines. It
/// has cells, so `build_grid_mesh` accepts it whenever those vertices fit
/// 16-bit indices.
pub proof fn lemma_single_grid_counts(g: Grid)
    requires
        g.width >= 1,
        g.height >= 1,
    ensures
        !has_empty_grid(seq![g]),
        vertex_total(seq![g]) == (g.width + 1) * (g.height + 1),
        mesh_vertices(seq![g]).len() == (g.width + 1) * (g.height + 1),
        mesh_indices(seq![g]).len() == 4 + 2 * (g.width + g.height),
{
    let grids = seq![g];
    assert(grids[0] == g);
    assert(grids.drop_last() =~= Seq::<Grid>::empty());
    lemma_mesh_vertices_len(grids);
    assert(vertex_total(grids) == vertex_total(grids.drop_last()) + vertex_count(g));
    let lines = grid_line_indices(g.width as int, g.height as int);
    assert(lines.len() == 8 + 2 * (g.width - 1) + 2 * (g.height - 1));
    assert(mesh_indices(grids) =~= mesh_indices(grids.drop_last()) + lines.map_values(
        |v: int| v + vertex_total(grids.drop_last()),
    ));
}

/// Builds the vertices and line-list indices of all `grids` into one mesh.
///
/// Each grid contributes its `(w + 1) * (h + 1)` lattice points and
/// `4 + 2 * (w + h)` indices (four boundary lines, `w - 1` inner columns,
/// `h - 1` inner rows), offset past the vertices of the grids before it. A
/// grid without cells is refused, and so is a mesh whose vertices 16-bit
/// indices cannot address.
pub fn build_grid_mesh(grids: &Vec<Grid>) -> (r: Result<GridMesh, GridMeshError>)
    ensures
        has_empty_grid(grids@) ==> r == Err::<GridMesh, GridMeshError>(GridMeshError::EmptyGrid),
        !has_empty_grid(grids@) && vertex_total(grids@) > MAX_VERTICES ==> r == Err::<
            GridMesh,
            GridMeshError,
        >(GridMeshError::TooManyVertices),
        !has_empty_grid(grids@) && vertex_total(grids@) <= MAX_VERTICES ==> (r matches Ok(m) && {
            &&& m.vertices@ == mesh_vertices(grids@)
            &&& as_ints(m.indices@) == mesh_indices(grids@)
            &&& forall|k: int|
                0 <= k < m.indices@.len() ==> #[trigger] m.indices@[k] < m.vertices@.len()
        }),
{
    let n = grids.len();
    let mut k: usize = 0;
    while k < n
        invariant
            n == grids@.len(),
            k <= n,
            forall|q: int| 0 <= q < k ==> grids@[q].width != 0 && grids@[q].height != 0,
        decreases n - k,
    {
        if grids[k].width == 0 || grids[k].height == 0 {
            return Err(GridMeshError::EmptyGrid);
        }
        k = k + 1;
    }
    assert(!has_empty_grid(grids@));
    let mut total: u64 = 0;
    let mut k: usize = 0;
    while k < n
        invariant
            n == grids@.len(),
            k <= n,
            !has_empty_grid(grids@),
            total == vertex_total(grids@.take(k as int)),
            total <= MAX_VERTICES,
        decreases n - k,
    {
        let g = grids[k];
        assert(grids@.take(k + 1).drop_last() =~= grids@.take(k as int));
        proof {
            lemma_vertex_total_prefix(grids@, k + 1);
        }
        if g.width >= MAX_VERTICES || g.height >= MAX_VERTICES {
            assert((g.width + 1) * (g.height + 1) > MAX_VERTICES) by (nonlinear_arith)
                requires
                    g.width >= MAX_VERTICES || g.height >= MAX_VERTICES,
            ;
            proof {
                lemma_vertex_total_nonneg(grids@.take(k as int));
            }
            return Err(GridMeshError::TooManyVertices);
        }
        assert((g.width + 1) * (g.height + 1) <= MAX_VERTICES * MAX_VERTICES) by (nonlinear_arith)
            requires
                g.width < MAX_VERTICES && g.height < MAX_VERTICES,
        ;
        assert(MAX_VERTICES * MAX_VERTICES <= u64::MAX);
        let count: u64 = (g.width as u64 + 1) * (g.height as u64 + 1);
        if total + count > MAX_VERTICES as u64 {
            return Err(GridMeshError::TooManyVertices);
        }
        total = total + count;
        k = k + 1;
    }
    assert(grids@.take(n as int) =~= grids@);
    let mut vertices: Vec<GridVertex> = Vec::new();
    let mut indices: Vec<u16> = Vec::new();
    let mut k: usize = 0;
    while k < n
        invariant
            n == grids@.len(),
            k <= n,
            !has_empty_grid(grids@),
            vertex_total(grids@) <= MAX_VERTICES,
            vertices@ == mesh_vertices(grids@.take(k as int)),
            vertices@.len() == vertex_total(grids@.take(k as int)),
            as_ints(indices@) == mesh_indices(grids@.take(k as int)),
            forall|q: int| 0 <= q < indices@.len() ==> #[trigger] indices@[q] < vertices@.len(),
        decreases n - k,
    {
        let g = grids[k];
        let ghost prefix = grids@.take(k + 1);
        assert(prefix.drop_last() =~= grids@.take(k as int));
        assert(prefix.last() == g);
        assert(g.width != 0 && g.height != 0) by {
            if g.width == 0 || g.height == 0 {
                assert(grids@[k as int] == g);
            }
        }
        proof {
            lemma_vertex_total_prefix(grids@, k + 1);
            lemma_vertex_total_nonneg(grids@.take(k as int));
            lemma_mesh_vertices_len(prefix);
        }
        assert(g.width < MAX_VERTICES && g.height < MAX_VERTICES) by (nonlinear_arith)
            requires
                (g.width + 1) * (g.height + 1) <= MAX_VERTICES,
        ;
        let base = vertices.len();
        let ghost old_indices = indices@;
        let ghost old_vertices = vertices@;
        let mut grid_vertices = build_grid_vertices(k, g);
        let grid_indices = build_grid_indices(base, g.width, g.height);
        vertices.append(&mut grid_vertices);
        let mut q: usize = 0;
        while q < grid_indices.len()
            invariant
                q <= grid_indices@.len(),
                indices@ == old_indices + grid_indices@.take(q as int),
            decreases grid_indices@.len() - q,
        {
            indices.push(grid_indices[q]);
            assert(grid_indices@.take(q + 1) =~= grid_indices@.take(q as int).push(grid_indices@[q as int]));
            q = q + 1;
        }
        assert(grid_indices@.take(grid_indices@.len() as int) =~= grid_indices@);
        assert(as_ints(indices@) =~= as_ints(old_indices) + as_ints(grid_indices@));
        assert(vertices@ =~= mesh_vertices(prefix));
        assert(forall|q: int| 0 <= q < indices@.len() ==> #[trigger] indices@[q] < vertices@.len()) by {
            assert forall|q: int| 0 <= q < indices@.len() implies #[trigger] indices@[q] < vertices@.len() by {
                if q >= old_indices.len() {
                    assert(indices@[q] == grid_indices@[q - old_indices.len()]);
                }
            }
        }
        k = k + 1;
    }
    Ok(GridMesh { vertices, indices })
}

} // verus!
