//! One-time procedural construction of the five canonical tile meshes.
//!
//! Every lattice cell `(x, z)` of the `builder_width`-sized grid is
//! classified into the square, center, filler or trim tile; each covered
//! cell emits two counter-clockwise triangles. The stitch tile is built
//! separately by walking the outer edge in steps of two, emitting the
//! degenerate triangles that tie three fine-edge points to the coarse
//! neighbor's matching point and so eliminate T-junction cracks between
//! adjacent rings.

use vstd::prelude::*;

use crate::config::{
    builder_width_spec, filler_width_spec, square_width_spec, ConfigError, MAX_HALF_WIDTH,
};
use crate::mesh::{bounds_valid, Tri, TileBounds, TileMesh};

verus! {

/// The five canonical tiles composing every detail ring.
#[derive(Clone, Copy, PartialEq, Eq, Structural, Debug)]
pub enum TileKind {
    /// One quadrant of fine geometry, placed into all four quadrants.
    Square,
    /// The cross-shaped band around the midline, used only at the finest
    /// level to fill the hole left by the omitted inner squares.
    Filler,
    /// The cross-shaped band including the inner part, used at the finest
    /// level in place of the filler.
    Center,
    /// The L-shaped border strip, re-oriented every frame.
    Trim,
    /// Seam geometry between adjacent rings, built edge-wise rather than
    /// cell-wise.
    Stitch,
}

/// Does the lattice cell `(x, z)` belong to the tile of the given kind?
/// The stitch tile is not lattice-classified.
pub open spec fn is_cell(kind: TileKind, w: int, x: int, z: int) -> bool {
    let f = filler_width_spec(w);
    let b = builder_width_spec(w);
    let q = square_width_spec(w);
    match kind {
        TileKind::Square => 0 <= x < q && 0 <= z < q,
        TileKind::Center => {
            &&& 0 <= x < b - f
            &&& 0 <= z < b - f
            &&& ((2 * q <= x < 2 * q + f) || (2 * q <= z < 2 * q + f))
        },
        TileKind::Filler => {
            &&& 0 <= x < b - f
            &&& 0 <= z < b - f
            &&& ((2 * q <= x < 2 * q + f) || (2 * q <= z < 2 * q + f))
            &&& !((q <= x < b - q - f) && (q <= z < b - q - f))
        },
        TileKind::Trim => 0 <= x < b && 0 <= z < b && (x >= b - f || z >= b - f),
        TileKind::Stitch => false,
    }
}

/// The cells of row `z` with x coordinate below `x`, in scan order.
pub open spec fn row_cells(kind: TileKind, w: int, z: int, x: int) -> Seq<(int, int)>
    decreases x,
{
    if x <= 0 {
        Seq::empty()
    } else if is_cell(kind, w, x - 1, z) {
        row_cells(kind, w, z, x - 1).push((x - 1, z))
    } else {
        row_cells(kind, w, z, x - 1)
    }
}

/// The cells of all rows below `z`, in row-major scan order.
pub open spec fn grid_cells(kind: TileKind, w: int, z: int) -> Seq<(int, int)>
    decreases z,
{
    if z <= 0 {
        Seq::empty()
    } else {
        grid_cells(kind, w, z - 1) + row_cells(kind, w, z - 1, builder_width_spec(w))
    }
}

/// All cells of the tile, in row-major scan order.
pub open spec fn mesh_cells(kind: TileKind, w: int) -> Seq<(int, int)> {
    grid_cells(kind, w, builder_width_spec(w))
}

/// The two counter-clockwise triangles of one covered unit cell.
pub open spec fn cell_tris(c: (int, int)) -> Seq<Tri> {
    seq![
        ((c.0, c.1), (c.0, c.1 + 1), (c.0 + 1, c.1 + 1)),
        ((c.0, c.1), (c.0 + 1, c.1 + 1), (c.0 + 1, c.1)),
    ]
}

/// The triangle list a cell sequence emits.
pub open spec fn tris_of_cells(cs: Seq<(int, int)>) -> Seq<Tri>
    decreases cs.len(),
{
    if cs.len() == 0 {
        Seq::empty()
    } else {
        tris_of_cells(cs.drop_last()) + cell_tris(cs.last())
    }
}

/// Covering one more cell appends exactly its two triangles.
pub proof fn lemma_tris_of_cells_push(cs: Seq<(int, int)>, c: (int, int))
    ensures
        tris_of_cells(cs.push(c)) == tris_of_cells(cs)
            .push(((c.0, c.1), (c.0, c.1 + 1), (c.0 + 1, c.1 + 1)))
            .push(((c.0, c.1), (c.0 + 1, c.1 + 1), (c.0 + 1, c.1))),
{
    assert(cs.push(c).drop_last() =~= cs);
    assert(cs.push(c).last() == c);
    assert(tris_of_cells(cs) + cell_tris(c) =~= tris_of_cells(cs)
        .push(((c.0, c.1), (c.0, c.1 + 1), (c.0 + 1, c.1 + 1)))
        .push(((c.0, c.1), (c.0 + 1, c.1 + 1), (c.0 + 1, c.1))));
}

/// A cell sequence emits two triangles per cell.
pub proof fn lemma_tris_of_cells_len(cs: Seq<(int, int)>)
    ensures
        tris_of_cells(cs).len() == 2 * cs.len(),
    decreases cs.len(),
{
    if cs.len() > 0 {
        lemma_tris_of_cells_len(cs.drop_last());
    }
}

/// A row prefix holds at most one cell per scanned x coordinate.
pub proof fn lemma_row_cells_len(kind: TileKind, w: int, z: int, x: int)
    requires
        x >= 0,
    ensures
        row_cells(kind, w, z, x).len() <= x,
    decreases x,
{
    if x > 0 {
        lemma_row_cells_len(kind, w, z, x - 1);
    }
}

/// A grid prefix holds at most one cell per scanned lattice position.
pub proof fn lemma_grid_cells_len(kind: TileKind, w: int, z: int)
    requires
        z >= 0,
        builder_width_spec(w) >= 0,
    ensures
        grid_cells(kind, w, z).len() <= z * builder_width_spec(w),
    decreases z,
{
    let b = builder_width_spec(w);
    if z > 0 {
        lemma_grid_cells_len(kind, w, z - 1);
        lemma_row_cells_len(kind, w, z - 1, b);
        assert((z - 1) * b + b == z * b) by (nonlinear_arith);
    }
}

/// Builds one lattice-classified tile mesh by scanning every cell of the
/// builder grid in row-major order.
///
/// The result is pinned completely: its triangles are exactly those of
/// the kind's classified cells, in scan order, and its vertices are the
/// distinct lattice points those triangles touch, each held once.
pub fn build_cell_mesh(kind: TileKind, half_width: u32) -> (m: TileMesh)
    requires
        1 <= half_width <= MAX_HALF_WIDTH,
    ensures
        m.wf(),
        m.vertices_are_touched(),
        m.tris() == tris_of_cells(mesh_cells(kind, half_width as int)),
{
    let w: i64 = half_width as i64;
    let f: i64 = 2 - (half_width % 2) as i64;
    let q: i64 = ((half_width as u64 - f as u64) / 2) as i64;
    let b: i64 = 2 * w;
    proof {
        assert(f == filler_width_spec(w as int));
        assert(q == square_width_spec(w as int));
        assert(b == builder_width_spec(w as int));
    }
    let mut m = TileMesh::new();
    let mut z: i64 = 0;
    proof {
        assert(grid_cells(kind, w as int, 0) =~= Seq::<(int, int)>::empty());
        assert(m.tris() == tris_of_cells(grid_cells(kind, w as int, 0)));
    }
    while z < b
        invariant
            0 <= z <= b,
            w == half_width as i64,
            1 <= half_width <= MAX_HALF_WIDTH,
            f == filler_width_spec(w as int),
            q == square_width_spec(w as int),
            b == builder_width_spec(w as int),
            m.wf(),
            m.vertices_are_touched(),
            m.tris() == tris_of_cells(grid_cells(kind, w as int, z as int)),
            m.verts@.len() <= 6 * grid_cells(kind, w as int, z as int).len(),
            grid_cells(kind, w as int, z as int).len() <= z * b,
        decreases b - z,
    {
        let ghost base = grid_cells(kind, w as int, z as int);
        let mut x: i64 = 0;
        proof {
            assert(base + row_cells(kind, w as int, z as int, 0) =~= base);
        }
        while x < b
            invariant
                0 <= x <= b,
                0 <= z < b,
                w == half_width as i64,
                1 <= half_width <= MAX_HALF_WIDTH,
                f == filler_width_spec(w as int),
                q == square_width_spec(w as int),
                b == builder_width_spec(w as int),
                base == grid_cells(kind, w as int, z as int),
                base.len() <= z * b,
                m.wf(),
                m.vertices_are_touched(),
                m.tris() == tris_of_cells(base + row_cells(kind, w as int, z as int, x as int)),
                m.verts@.len() <= 6 * (base + row_cells(kind, w as int, z as int, x as int)).len(),
                row_cells(kind, w as int, z as int, x as int).len() <= x,
            decreases b - x,
        {
            let covered = match kind {
                TileKind::Square => x < q && z < q,
                TileKind::Center => (2 * q <= x && x < 2 * q + f) || (2 * q <= z && z < 2 * q + f),
                TileKind::Filler => {
                    let banded = (2 * q <= x && x < 2 * q + f) || (2 * q <= z && z < 2 * q + f);
                    banded && !((q <= x && x < b - q - f) && (q <= z && z < b - q - f))
                },
                TileKind::Trim => x >= b - f || z >= b - f,
                TileKind::Stitch => false,
            };
            let covered = covered && match kind {
                TileKind::Center | TileKind::Filler => x < b - f && z < b - f,
                _ => true,
            };
            proof {
                assert(covered == is_cell(kind, w as int, x as int, z as int));
            }
            let ghost cs = base + row_cells(kind, w as int, z as int, x as int);
            if covered {
                proof {
                    lemma_grid_cells_len(kind, w as int, z as int);
                    assert(cs.len() <= z * b + x);
                    assert(z * b + x <= b * b) by (nonlinear_arith)
                        requires
                            0 <= z < b,
                            0 <= x <= b,
                    ;
                    assert(b * b <= 268435456) by (nonlinear_arith)
                        requires
                            0 <= b <= 16384,
                    ;
                    lemma_tris_of_cells_len(cs);
                    assert(m.indices@.len() == 3 * m.tris().len()) by {
                        vstd::arithmetic::div_mod::lemma_fundamental_div_mod(
                            m.indices@.len() as int,
                            3,
                        );
                    }
                }
                m.add_square(x, z);
                proof {
                    lemma_tris_of_cells_push(cs, (x as int, z as int));
                    assert(row_cells(kind, w as int, z as int, x as int + 1)
                        == row_cells(kind, w as int, z as int, x as int).push((x as int, z as int)));
                    assert(base + row_cells(kind, w as int, z as int, x as int + 1)
                        =~= cs.push((x as int, z as int)));
                }
            } else {
                proof {
                    assert(row_cells(kind, w as int, z as int, x as int + 1)
                        == row_cells(kind, w as int, z as int, x as int));
                }
            }
            x = x + 1;
        }
        proof {
            assert(row_cells(kind, w as int, z as int, b as int).len() <= b);
            assert(grid_cells(kind, w as int, z as int + 1)
                == base + row_cells(kind, w as int, z as int, b as int));
            assert(grid_cells(kind, w as int, z as int + 1).len() <= (z + 1) * b) by (nonlinear_arith)
                requires
                    grid_cells(kind, w as int, z as int + 1).len()
                        == base.len() + row_cells(kind, w as int, z as int, b as int).len(),
                    base.len() <= z * b,
                    row_cells(kind, w as int, z as int, b as int).len() <= b,
                    0 <= z,
                    0 <= b,
            ;
        }
        z = z + 1;
    }
    m
}

/// The four triangles one stitch step emits at edge offset `x` on a grid
/// of side `b`: one along each of the four outer edges, each degenerate
/// (its three corners are collinear), welding three fine-edge points to
/// the coarse neighbor's matching pair.
pub open spec fn stitch_step_tris(b: int, x: int) -> Seq<Tri> {
    seq![
        ((x, 0), (x + 1, 0), (x + 2, 0)),
        ((x + 2, b), (x + 1, b), (x, b)),
        ((0, x + 2), (0, x + 1), (0, x)),
        ((b, x), (b, x + 1), (b, x + 2)),
    ]
}

/// The triangles of the first `i` stitch steps, in emission order.
pub open spec fn stitch_tris(w: int, i: int) -> Seq<Tri>
    decreases i,
{
    if i <= 0 {
        Seq::empty()
    } else {
        stitch_tris(w, i - 1) + stitch_step_tris(2 * w, 2 * (i - 1))
    }
}

/// All triangles of the stitch tile.
pub open spec fn stitch_mesh_tris(w: int) -> Seq<Tri> {
    stitch_tris(w, w)
}

/// Builds the stitch tile by walking the outer edge in steps of two.
///
/// The result is pinned completely: its triangles are exactly the stitch
/// steps in emission order, and its vertices are the distinct edge points
/// those triangles touch, each held once.
pub fn build_stitch_mesh(half_width: u32) -> (m: TileMesh)
    requires
        1 <= half_width <= MAX_HALF_WIDTH,
    ensures
        m.wf(),
        m.vertices_are_touched(),
        m.tris() == stitch_mesh_tris(half_width as int),
{
    let w: i64 = half_width as i64;
    let b: i64 = 2 * w;
    let mut m = TileMesh::new();
    proof {
        assert(stitch_tris(w as int, 0) =~= Seq::<Tri>::empty());
    }
    let mut i: i64 = 0;
    while i < w
        invariant
            0 <= i <= w,
            w == half_width as i64,
            1 <= half_width <= MAX_HALF_WIDTH,
            b == 2 * w,
            m.wf(),
            m.vertices_are_touched(),
            m.tris() == stitch_tris(w as int, i as int),
            m.verts@.len() <= 12 * i,
            m.indices@.len() == 12 * i,
        decreases w - i,
    {
        let x = 2 * i;
        m.add_triangle(x, 0, x + 1, 0, x + 2, 0);
        m.add_triangle(x + 2, b, x + 1, b, x, b);
        m.add_triangle(0, x + 2, 0, x + 1, 0, x);
        m.add_triangle(b, x, b, x + 1, b, x + 2);
        proof {
            assert(stitch_tris(w as int, i as int + 1) == stitch_tris(w as int, i as int)
                + stitch_step_tris(2 * (w as int), 2 * (i as int)));
            assert(m.tris() =~= stitch_tris(w as int, i as int + 1));
        }
        i = i + 1;
    }
    m
}

/// The five tile meshes of one clipmap configuration, with their cached
/// bounding boxes. Built once; every placement references them read-only.
pub struct TileMeshSet {
    /// The square tile.
    pub square: TileMesh,
    /// The filler tile.
    pub filler: TileMesh,
    /// The center tile.
    pub center: TileMesh,
    /// The trim tile.
    pub trim: TileMesh,
    /// The stitch tile.
    pub stitch: TileMesh,
    /// Cached extents of the square tile.
    pub square_bounds: TileBounds,
    /// Cached extents of the filler tile.
    pub filler_bounds: TileBounds,
    /// Cached extents of the center tile.
    pub center_bounds: TileBounds,
    /// Cached extents of the trim tile.
    pub trim_bounds: TileBounds,
    /// Cached extents of the stitch tile.
    pub stitch_bounds: TileBounds,
}

impl TileMeshSet {
    /// Every mesh is welded, holds exactly the classified geometry of its
    /// kind for half-width `w`, and carries its tight bounding box.
    pub open spec fn wf(self, w: int) -> bool {
        &&& self.square.wf() && self.square.vertices_are_touched()
        &&& self.square.tris() == tris_of_cells(mesh_cells(TileKind::Square, w))
        &&& self.filler.wf() && self.filler.vertices_are_touched()
        &&& self.filler.tris() == tris_of_cells(mesh_cells(TileKind::Filler, w))
        &&& self.center.wf() && self.center.vertices_are_touched()
        &&& self.center.tris() == tris_of_cells(mesh_cells(TileKind::Center, w))
        &&& self.trim.wf() && self.trim.vertices_are_touched()
        &&& self.trim.tris() == tris_of_cells(mesh_cells(TileKind::Trim, w))
        &&& self.stitch.wf() && self.stitch.vertices_are_touched()
        &&& self.stitch.tris() == stitch_mesh_tris(w)
        &&& bounds_valid(self.square, self.square_bounds)
        &&& bounds_valid(self.filler, self.filler_bounds)
        &&& bounds_valid(self.center, self.center_bounds)
        &&& bounds_valid(self.trim, self.trim_bounds)
        &&& bounds_valid(self.stitch, self.stitch_bounds)
    }
}

/// Builds the five tile meshes and their bounding boxes for one
/// configuration.
///
/// Fails, producing no partial object, exactly when the half-width cannot
/// yield a square tile of positive width: on `half_width == 0`, and on a
/// half-width so small that `square_width` would not be positive.
pub fn build_tile_meshes(half_width: u32) -> (r: Result<TileMeshSet, ConfigError>)
    requires
        half_width <= MAX_HALF_WIDTH,
    ensures
        r is Ok <==> square_width_spec(half_width as int) >= 1,
        match r {
            Ok(set) => set.wf(half_width as int),
            Err(e) => e == if half_width == 0 {
                ConfigError::HalfWidthZero
            } else {
                ConfigError::SquareWidthNotPositive
            },
        },
{
    if half_width == 0 {
        return Err(ConfigError::HalfWidthZero);
    }
    let f: i64 = 2 - (half_width % 2) as i64;
    let q: i64 = ((half_width as u64 - f as u64) / 2) as i64;
    proof {
        assert(q == square_width_spec(half_width as int));
    }
    if q < 1 {
        return Err(ConfigError::SquareWidthNotPositive);
    }
    let square = build_cell_mesh(TileKind::Square, half_width);
    let filler = build_cell_mesh(TileKind::Filler, half_width);
    let center = build_cell_mesh(TileKind::Center, half_width);
    let trim = build_cell_mesh(TileKind::Trim, half_width);
    let stitch = build_stitch_mesh(half_width);
    let square_bounds = square.extents();
    let filler_bounds = filler.extents();
    let center_bounds = center.extents();
    let trim_bounds = trim.extents();
    let stitch_bounds = stitch.extents();
    Ok(TileMeshSet {
        square,
        filler,
        center,
        trim,
        stitch,
        square_bounds,
        filler_bounds,
        center_bounds,
        trim_bounds,
        stitch_bounds,
    })
}

} // verus!
