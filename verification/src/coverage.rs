//! Ring coverage laws.
//!
//! The placements of one level tile the ring exactly. This module
//! proves it two ways, for every valid half-width:
//!
//! * pointwise (`lemma_ring_exact_cover`, `lemma_slots_disjoint`): each
//!   cell of the ring between the level's outer boundary and the hole
//!   the next finer level covers is covered by exactly one placed
//!   square or block tile — no gaps, no overlaps;
//! * by area (`lemma_ring_area_coverage`): the triangle areas of the
//!   placed meshes sum to the ring's area, with the stitch contributing
//!   only degenerate, zero-area seam triangles.
//!
//! On the way it proves the cell counts of each lattice-classified tile
//! in closed form (`lemma_tile_cell_counts`) and that a tile's cell
//! sequence holds exactly the cells its classification admits
//! (`lemma_mesh_cells_membership`).

use vstd::prelude::*;

use crate::config::{
    builder_width_spec, filler_width_spec, lemma_width_decomposition, square_width_spec,
};
use crate::factory::{
    grid_cells, is_cell, mesh_cells, row_cells, stitch_mesh_tris, stitch_step_tris, stitch_tris,
    tris_of_cells, TileKind, TileMeshSet,
};
use crate::mesh::{area2_sum, lemma_area2_sum_push, tri_area2, Tri};
use crate::topology::{slot_kept, square_slot_offset};

verus! {

/// How many integers of `[a, b)` lie below `x`.
pub open spec fn clip(a: int, b: int, x: int) -> int {
    let hi = if b <= x {
        b
    } else {
        x
    };
    if hi <= a {
        0
    } else {
        hi - a
    }
}

/// Scanning one more x coordinate grows the clipped count exactly when
/// the coordinate lies in the interval.
proof fn lemma_clip_step(a: int, b: int, x: int)
    requires
        0 <= a <= b,
        x >= 1,
    ensures
        clip(a, b, x) == clip(a, b, x - 1) + if a <= x - 1 < b {
            1int
        } else {
            0int
        },
{
}

/// The length of a scanned row prefix whose cells form two sorted,
/// disjoint x intervals.
proof fn lemma_row_cells_interval_len(
    kind: TileKind,
    w: int,
    z: int,
    x: int,
    a1: int,
    b1: int,
    a2: int,
    b2: int,
)
    requires
        0 <= a1 <= b1 <= a2 <= b2,
        forall|t: int| is_cell(kind, w, t, z) <==> (a1 <= t < b1 || a2 <= t < b2),
        x >= 0,
    ensures
        row_cells(kind, w, z, x).len() == clip(a1, b1, x) + clip(a2, b2, x),
    decreases x,
{
    if x > 0 {
        lemma_row_cells_interval_len(kind, w, z, x - 1, a1, b1, a2, b2);
        lemma_clip_step(a1, b1, x);
        lemma_clip_step(a2, b2, x);
    }
}

/// The length of a scanned grid prefix whose full-row counts are
/// constant on three sorted, disjoint z intervals and zero elsewhere.
proof fn lemma_grid_cells_interval_len(
    kind: TileKind,
    w: int,
    z: int,
    za1: int,
    zb1: int,
    c1: int,
    za2: int,
    zb2: int,
    c2: int,
    za3: int,
    zb3: int,
    c3: int,
)
    requires
        0 <= za1 <= zb1 <= za2 <= zb2 <= za3 <= zb3,
        forall|t: int|
            0 <= t ==> row_cells(kind, w, t, builder_width_spec(w)).len() == (if za1 <= t < zb1 {
                c1
            } else if za2 <= t < zb2 {
                c2
            } else if za3 <= t < zb3 {
                c3
            } else {
                0int
            }),
        z >= 0,
    ensures
        grid_cells(kind, w, z).len() == c1 * clip(za1, zb1, z) + c2 * clip(za2, zb2, z) + c3
            * clip(za3, zb3, z),
    decreases z,
{
    if z > 0 {
        lemma_grid_cells_interval_len(kind, w, z - 1, za1, zb1, c1, za2, zb2, c2, za3, zb3, c3);
        lemma_clip_step(za1, zb1, z);
        lemma_clip_step(za2, zb2, z);
        lemma_clip_step(za3, zb3, z);
        assert(row_cells(kind, w, z - 1, builder_width_spec(w)).len() == (if za1 <= z - 1 < zb1 {
            c1
        } else if za2 <= z - 1 < zb2 {
            c2
        } else if za3 <= z - 1 < zb3 {
            c3
        } else {
            0int
        }));
        assert(c1 * (clip(za1, zb1, z - 1) + 1) == c1 * clip(za1, zb1, z - 1) + c1)
            by (nonlinear_arith);
        assert(c2 * (clip(za2, zb2, z - 1) + 1) == c2 * clip(za2, zb2, z - 1) + c2)
            by (nonlinear_arith);
        assert(c3 * (clip(za3, zb3, z - 1) + 1) == c3 * clip(za3, zb3, z - 1) + c3)
            by (nonlinear_arith);
    }
}

/// A scanned row prefix holds exactly the classified cells of its row
/// below the scan position.
proof fn lemma_row_cells_membership(kind: TileKind, w: int, z: int, x: int, p: (int, int))
    requires
        x >= 0,
    ensures
        row_cells(kind, w, z, x).contains(p) <==> (p.1 == z && p.0 < x && is_cell(
            kind,
            w,
            p.0,
            p.1,
        )),
    decreases x,
{
    if x > 0 {
        lemma_row_cells_membership(kind, w, z, x - 1, p);
        let prev = row_cells(kind, w, z, x - 1);
        if is_cell(kind, w, x - 1, z) {
            assert(row_cells(kind, w, z, x) == prev.push((x - 1, z)));
            if row_cells(kind, w, z, x).contains(p) {
                let i = choose|i: int|
                    0 <= i < row_cells(kind, w, z, x).len() && row_cells(kind, w, z, x)[i] == p;
                if i < prev.len() {
                    assert(prev.contains(p));
                }
            }
            if prev.contains(p) {
                let i = choose|i: int| 0 <= i < prev.len() && prev[i] == p;
                assert(row_cells(kind, w, z, x)[i] == p);
                assert(row_cells(kind, w, z, x).contains(p));
            }
            if p == (x - 1, z) {
                assert(row_cells(kind, w, z, x)[prev.len() as int] == p);
                assert(row_cells(kind, w, z, x).contains(p));
            }
        }
    }
}

/// Every classified cell lies inside the scanned grid.
proof fn lemma_cell_in_grid(kind: TileKind, w: int, x: int, z: int)
    requires
        square_width_spec(w) >= 1,
        is_cell(kind, w, x, z),
    ensures
        0 <= x < builder_width_spec(w),
        0 <= z < builder_width_spec(w),
{
    lemma_width_decomposition(w);
}

/// A scanned grid prefix holds exactly the classified cells of its rows
/// below the scan position.
proof fn lemma_grid_cells_membership(kind: TileKind, w: int, z: int, p: (int, int))
    requires
        square_width_spec(w) >= 1,
        z >= 0,
    ensures
        grid_cells(kind, w, z).contains(p) <==> (p.1 < z && is_cell(kind, w, p.0, p.1)),
    decreases z,
{
    let b = builder_width_spec(w);
    if z > 0 {
        lemma_grid_cells_membership(kind, w, z - 1, p);
        lemma_row_cells_membership(kind, w, z - 1, b, p);
        let prev = grid_cells(kind, w, z - 1);
        let row = row_cells(kind, w, z - 1, b);
        assert(grid_cells(kind, w, z) == prev + row);
        if grid_cells(kind, w, z).contains(p) {
            let i = choose|i: int|
                0 <= i < grid_cells(kind, w, z).len() && grid_cells(kind, w, z)[i] == p;
            if i < prev.len() {
                assert(prev.contains(p));
            } else {
                assert(row[i - prev.len()] == p);
                assert(row.contains(p));
            }
        }
        if prev.contains(p) {
            let i = choose|i: int| 0 <= i < prev.len() && prev[i] == p;
            assert(grid_cells(kind, w, z)[i] == p);
            assert(grid_cells(kind, w, z).contains(p));
        }
        if row.contains(p) {
            let i = choose|i: int| 0 <= i < row.len() && row[i] == p;
            assert(grid_cells(kind, w, z)[prev.len() + i] == p);
            assert(grid_cells(kind, w, z).contains(p));
        }
        if p.1 == z - 1 && is_cell(kind, w, p.0, p.1) {
            lemma_cell_in_grid(kind, w, p.0, p.1);
            assert(row.contains(p));
        }
    }
}

/// The cell sequence a tile is built from holds exactly the cells its
/// classification admits, each once (the scan visits each lattice cell
/// once).
pub proof fn lemma_mesh_cells_membership(kind: TileKind, w: int, p: (int, int))
    requires
        square_width_spec(w) >= 1,
    ensures
        mesh_cells(kind, w).contains(p) <==> is_cell(kind, w, p.0, p.1),
{
    lemma_grid_cells_membership(kind, w, builder_width_spec(w), p);
    if is_cell(kind, w, p.0, p.1) {
        lemma_cell_in_grid(kind, w, p.0, p.1);
    }
}

/// The cell counts of the lattice-classified tiles, in closed form: the
/// square tile covers `square_width^2` cells, the filler `2 *
/// filler_width * (half_width - filler_width)`, the center `2 *
/// filler_width * (builder_width - filler_width) - filler_width^2`, and
/// the trim `2 * filler_width * builder_width - filler_width^2`.
pub proof fn lemma_tile_cell_counts(w: int)
    requires
        square_width_spec(w) >= 1,
    ensures
        mesh_cells(TileKind::Square, w).len() == square_width_spec(w) * square_width_spec(w),
        mesh_cells(TileKind::Filler, w).len() == 2 * filler_width_spec(w) * (w - filler_width_spec(
            w,
        )),
        mesh_cells(TileKind::Center, w).len() == 2 * filler_width_spec(w) * (builder_width_spec(w)
            - filler_width_spec(w)) - filler_width_spec(w) * filler_width_spec(w),
        mesh_cells(TileKind::Trim, w).len() == 2 * filler_width_spec(w) * builder_width_spec(w)
            - filler_width_spec(w) * filler_width_spec(w),
{
    let f = filler_width_spec(w);
    let q = square_width_spec(w);
    let b = builder_width_spec(w);
    lemma_width_decomposition(w);
    assert(w == 2 * q + f);
    assert(b == 2 * w);

    // Square: rows 0..q hold the cells 0..q.
    assert forall|t: int| 0 <= t implies row_cells(TileKind::Square, w, t, b).len() == (if 0 <= t
        < q {
        q
    } else {
        0int
    }) by {
        if 0 <= t < q {
            lemma_row_cells_interval_len(TileKind::Square, w, t, b, 0, q, q, q);
        } else {
            lemma_row_cells_interval_len(TileKind::Square, w, t, b, 0, 0, 0, 0);
        }
    }
    lemma_grid_cells_interval_len(TileKind::Square, w, b, 0, q, q, q, q, 0, q, q, 0);
    assert(mesh_cells(TileKind::Square, w).len() == q * clip(0, q, b));
    assert(clip(0, q, b) == q);

    // Filler: band rows hold both flanks of the omitted inner block,
    // outer rows hold the seam strip, inner rows hold nothing.
    assert forall|t: int| 0 <= t implies row_cells(TileKind::Filler, w, t, b).len() == (if 0 <= t
        < q {
        f
    } else if 2 * q <= t < 2 * q + f {
        w - f
    } else if q + w <= t < b - f {
        f
    } else {
        0int
    }) by {
        if 0 <= t < q {
            lemma_row_cells_interval_len(TileKind::Filler, w, t, b, 2 * q, 2 * q + f, 2 * q + f, 2 * q + f);
        } else if 2 * q <= t < 2 * q + f {
            lemma_row_cells_interval_len(TileKind::Filler, w, t, b, 0, q, q + w, b - f);
        } else if q + w <= t < b - f {
            lemma_row_cells_interval_len(TileKind::Filler, w, t, b, 2 * q, 2 * q + f, 2 * q + f, 2 * q + f);
        } else {
            lemma_row_cells_interval_len(TileKind::Filler, w, t, b, 0, 0, 0, 0);
        }
    }
    lemma_grid_cells_interval_len(
        TileKind::Filler, w, b, 0, q, f, 2 * q, 2 * q + f, w - f, q + w, b - f, f);
    assert(clip(0, q, b) == q);
    assert(clip(2 * q, 2 * q + f, b) == f);
    assert(clip(q + w, b - f, b) == q);
    assert(f * q + (w - f) * f + f * q == 2 * f * (w - f)) by (nonlinear_arith)
        requires
            w == 2 * q + f,
    ;

    // Center: band rows hold the whole span, other rows the seam strip.
    assert forall|t: int| 0 <= t implies row_cells(TileKind::Center, w, t, b).len() == (if 2 * q
        <= t < 2 * q + f {
        b - f
    } else if 0 <= t < b - f {
        f
    } else {
        0int
    }) by {
        if 2 * q <= t < 2 * q + f {
            lemma_row_cells_interval_len(TileKind::Center, w, t, b, 0, b - f, b - f, b - f);
        } else if 0 <= t < b - f {
            lemma_row_cells_interval_len(TileKind::Center, w, t, b, 2 * q, 2 * q + f, 2 * q + f, 2 * q + f);
        } else {
            lemma_row_cells_interval_len(TileKind::Center, w, t, b, 0, 0, 0, 0);
        }
    }
    lemma_grid_cells_interval_len(
        TileKind::Center, w, b, 0, 2 * q, f, 2 * q, 2 * q + f, b - f, 2 * q + f, b - f, f);
    assert(clip(0, 2 * q, b) == 2 * q);
    assert(clip(2 * q, 2 * q + f, b) == f);
    assert(clip(2 * q + f, b - f, b) == b - f - w);
    assert(f * (2 * q) + (b - f) * f + f * (b - f - w) == 2 * f * (b - f) - f * f)
        by (nonlinear_arith)
        requires
            w == 2 * q + f,
            b == 2 * w,
    ;

    // Trim: the far rows hold everything, the others the far strip.
    assert forall|t: int| 0 <= t implies row_cells(TileKind::Trim, w, t, b).len() == (if b - f <= t
        < b {
        b
    } else if 0 <= t < b - f {
        f
    } else {
        0int
    }) by {
        if b - f <= t < b {
            lemma_row_cells_interval_len(TileKind::Trim, w, t, b, 0, b, b, b);
        } else if 0 <= t < b - f {
            lemma_row_cells_interval_len(TileKind::Trim, w, t, b, b - f, b, b, b);
        } else {
            lemma_row_cells_interval_len(TileKind::Trim, w, t, b, 0, 0, 0, 0);
        }
    }
    lemma_grid_cells_interval_len(TileKind::Trim, w, b, 0, b - f, f, b - f, b, b, b, b, 0);
    assert(clip(0, b - f, b) == b - f);
    assert(clip(b - f, b, b) == f);
    assert(f * (b - f) + b * f + 0 * clip(b, b, b) == 2 * f * b - f * f) by (nonlinear_arith);
}

/// The two triangles of a covered unit cell are half-cells: each has
/// doubled area one.
proof fn lemma_cell_tri_areas(x: int, z: int)
    ensures
        tri_area2(((x, z), (x, z + 1), (x + 1, z + 1))) == 1,
        tri_area2(((x, z), (x + 1, z + 1), (x + 1, z))) == 1,
{
    assert((x - x) * ((z + 1) - z) - ((z + 1) - z) * ((x + 1) - x) == -1) by (nonlinear_arith);
    assert(((x + 1) - x) * (z - z) - ((z + 1) - z) * ((x + 1) - x) == -1) by (nonlinear_arith);
}

/// The four triangles of one stitch step are collinear: each has
/// doubled area zero.
proof fn lemma_stitch_tri_areas(b: int, x: int)
    ensures
        tri_area2(((x, 0), (x + 1, 0), (x + 2, 0))) == 0,
        tri_area2(((x + 2, b), (x + 1, b), (x, b))) == 0,
        tri_area2(((0, x + 2), (0, x + 1), (0, x))) == 0,
        tri_area2(((b, x), (b, x + 1), (b, x + 2))) == 0,
{
    assert(((x + 1) - x) * (0 - 0) - (0 - 0) * ((x + 2) - x) == 0) by (nonlinear_arith);
    assert(((x + 1) - (x + 2)) * (b - b) - (b - b) * (x - (x + 2)) == 0) by (nonlinear_arith);
    assert((0 - 0) * (x - (x + 2)) - ((x + 1) - (x + 2)) * (0 - 0) == 0) by (nonlinear_arith);
    assert((b - b) * ((x + 2) - x) - ((x + 1) - x) * (b - b) == 0) by (nonlinear_arith);
}

/// A cell sequence's triangles have total doubled area equal to twice
/// the cell count: each covered unit cell contributes two half-cell
/// triangles.
pub proof fn lemma_cells_area(cs: Seq<(int, int)>)
    ensures
        area2_sum(tris_of_cells(cs)) == 2 * cs.len(),
    decreases cs.len(),
{
    if cs.len() > 0 {
        let c = cs.last();
        let t1: Tri = ((c.0, c.1), (c.0, c.1 + 1), (c.0 + 1, c.1 + 1));
        let t2: Tri = ((c.0, c.1), (c.0 + 1, c.1 + 1), (c.0 + 1, c.1));
        lemma_cells_area(cs.drop_last());
        assert(tris_of_cells(cs.drop_last()) + crate::factory::cell_tris(c) =~= tris_of_cells(
            cs.drop_last(),
        ).push(t1).push(t2));
        lemma_area2_sum_push(tris_of_cells(cs.drop_last()), t1);
        lemma_area2_sum_push(tris_of_cells(cs.drop_last()).push(t1), t2);
        lemma_cell_tri_areas(c.0, c.1);
    }
}

/// Every stitch triangle is degenerate, so the stitch tile's total area
/// is zero.
pub proof fn lemma_stitch_area_zero(w: int, i: int)
    requires
        i >= 0,
    ensures
        area2_sum(stitch_tris(w, i)) == 0,
    decreases i,
{
    if i > 0 {
        let b = 2 * w;
        let x = 2 * (i - 1);
        let t1: Tri = ((x, 0), (x + 1, 0), (x + 2, 0));
        let t2: Tri = ((x + 2, b), (x + 1, b), (x, b));
        let t3: Tri = ((0, x + 2), (0, x + 1), (0, x));
        let t4: Tri = ((b, x), (b, x + 1), (b, x + 2));
        lemma_stitch_area_zero(w, i - 1);
        let base = stitch_tris(w, i - 1);
        assert(base + stitch_step_tris(b, x) =~= base.push(t1).push(t2).push(t3).push(t4));
        lemma_area2_sum_push(base, t1);
        lemma_area2_sum_push(base.push(t1), t2);
        lemma_area2_sum_push(base.push(t1).push(t2), t3);
        lemma_area2_sum_push(base.push(t1).push(t2).push(t3), t4);
        lemma_stitch_tri_areas(b, x);
    }
}

/// Ring coverage by area, for the meshes of any built tile set.
///
/// Transformed into one level's space, the placements tile the level
/// exactly once outside the trim boundary. In area terms: on a coarse
/// level, the twelve placed squares plus the filler (plus the zero-area
/// stitch) sum to the ring between the level's covered square of side
/// `builder_width - filler_width` and the hole of side `half_width`
/// covered by the next finer level; on the finest level, the sixteen
/// squares plus the center sum to the full covered square.
pub proof fn lemma_ring_area_coverage(set: TileMeshSet, w: int)
    requires
        set.wf(w),
        square_width_spec(w) >= 1,
    ensures
        12 * area2_sum(set.square.tris()) + area2_sum(set.filler.tris()) + area2_sum(
            set.stitch.tris(),
        ) == 2 * ((builder_width_spec(w) - filler_width_spec(w)) * (builder_width_spec(w)
            - filler_width_spec(w)) - w * w),
        16 * area2_sum(set.square.tris()) + area2_sum(set.center.tris()) == 2 * ((
        builder_width_spec(w) - filler_width_spec(w)) * (builder_width_spec(w) - filler_width_spec(
            w,
        ))),
{
    let f = filler_width_spec(w);
    let q = square_width_spec(w);
    let b = builder_width_spec(w);
    lemma_width_decomposition(w);
    lemma_tile_cell_counts(w);
    lemma_cells_area(mesh_cells(TileKind::Square, w));
    lemma_cells_area(mesh_cells(TileKind::Filler, w));
    lemma_cells_area(mesh_cells(TileKind::Center, w));
    lemma_stitch_area_zero(w, w);
    assert(12 * (2 * (q * q)) + 2 * (2 * f * (w - f)) == 2 * ((b - f) * (b - f) - w * w))
        by (nonlinear_arith)
        requires
            w == 2 * q + f,
            b == 2 * w,
    ;
    assert(16 * (2 * (q * q)) + 2 * (2 * f * (b - f) - f * f) == 2 * ((b - f) * (b - f)))
        by (nonlinear_arith)
        requires
            w == 2 * q + f,
            b == 2 * w,
    ;
}

/// Does square slot `idx`, translated by its level-local offset, cover
/// the level-local lattice cell `(px, pz)`?
pub open spec fn slot_covers(w: int, idx: int, px: int, pz: int) -> bool {
    is_cell(
        TileKind::Square,
        w,
        px - square_slot_offset(w, idx).0,
        pz - square_slot_offset(w, idx).1,
    )
}

/// Does the block tile over the omitted inner offset (the filler on
/// coarse levels, the center on the finest) cover the level-local
/// lattice cell `(px, pz)`?
pub open spec fn block_covers(kind: TileKind, w: int, px: int, pz: int) -> bool {
    is_cell(kind, w, px + 2 * square_width_spec(w), pz + 2 * square_width_spec(w))
}

/// The level-local cells one level's square and block placements must
/// cover: the square of side `builder_width - filler_width`, minus, on
/// coarse levels, the hole of side `half_width` that the next finer
/// level covers.
pub open spec fn ring_cell(w: int, coarse: bool, px: int, pz: int) -> bool {
    let q = square_width_spec(w);
    let f = filler_width_spec(w);
    &&& f - w <= px < w
    &&& f - w <= pz < w
    &&& coarse ==> !(-q <= px < q + f && -q <= pz < q + f)
}

/// Each lattice cell determines the square slot covering it: distinct
/// slots cover disjoint cells.
pub proof fn lemma_slots_disjoint(w: int, px: int, pz: int, i: int, j: int)
    requires
        square_width_spec(w) >= 1,
        0 <= i < 16,
        0 <= j < 16,
        slot_covers(w, i, px, pz),
        slot_covers(w, j, px, pz),
    ensures
        i == j,
{
    let q = square_width_spec(w);
    lemma_width_decomposition(w);
    assert(i == 4 * (i / 4) + i % 4) by {
        vstd::arithmetic::div_mod::lemma_fundamental_div_mod(i, 4);
    }
    assert(j == 4 * (j / 4) + j % 4) by {
        vstd::arithmetic::div_mod::lemma_fundamental_div_mod(j, 4);
    }
    // Each column's covered x interval is disjoint from the others, so
    // the cell's x coordinate determines the column; likewise for rows.
    assert((i % 4 - 2) * q == if i % 4 == 0 {
        -2 * q
    } else if i % 4 == 1 {
        -q
    } else if i % 4 == 2 {
        0int
    } else {
        q
    }) by (nonlinear_arith)
        requires
            0 <= i % 4 < 4,
    ;
    assert((j % 4 - 2) * q == if j % 4 == 0 {
        -2 * q
    } else if j % 4 == 1 {
        -q
    } else if j % 4 == 2 {
        0int
    } else {
        q
    }) by (nonlinear_arith)
        requires
            0 <= j % 4 < 4,
    ;
    assert((i / 4 - 2) * q == if i / 4 == 0 {
        -2 * q
    } else if i / 4 == 1 {
        -q
    } else if i / 4 == 2 {
        0int
    } else {
        q
    }) by (nonlinear_arith)
        requires
            0 <= i / 4 < 4,
    ;
    assert((j / 4 - 2) * q == if j / 4 == 0 {
        -2 * q
    } else if j / 4 == 1 {
        -q
    } else if j / 4 == 2 {
        0int
    } else {
        q
    }) by (nonlinear_arith)
        requires
            0 <= j / 4 < 4,
    ;
}

/// Where a covered cell of square slot `idx` can lie: inside the
/// level's covered square, never on the seam band, and inside the
/// middle block exactly when the slot's column (or row) is one of the
/// two middle ones.
proof fn lemma_slot_cover_shape(w: int, idx: int, px: int, pz: int)
    requires
        square_width_spec(w) >= 1,
        0 <= idx < 16,
        slot_covers(w, idx, px, pz),
    ensures
        ({
            let q = square_width_spec(w);
            let f = filler_width_spec(w);
            &&& f - w <= px < w && f - w <= pz < w
            &&& !(0 <= px < f) && !(0 <= pz < f)
            &&& ((idx % 4 == 1 || idx % 4 == 2) <==> (-q <= px < q + f))
            &&& ((idx / 4 == 1 || idx / 4 == 2) <==> (-q <= pz < q + f))
        }),
{
    let q = square_width_spec(w);
    lemma_width_decomposition(w);
    vstd::arithmetic::div_mod::lemma_fundamental_div_mod(idx, 4);
    assert((idx % 4 - 2) * q == if idx % 4 == 0 {
        -2 * q
    } else if idx % 4 == 1 {
        -q
    } else if idx % 4 == 2 {
        0int
    } else {
        q
    }) by (nonlinear_arith)
        requires
            0 <= idx % 4 < 4,
    ;
    assert((idx / 4 - 2) * q == if idx / 4 == 0 {
        -2 * q
    } else if idx / 4 == 1 {
        -q
    } else if idx / 4 == 2 {
        0int
    } else {
        q
    }) by (nonlinear_arith)
        requires
            0 <= idx / 4 < 4,
    ;
}

/// Every ring cell has a covering placement: a seam-band cell is
/// covered by the block tile, every other ring cell by the square slot
/// its column and row determine.
proof fn lemma_ring_cell_has_cover(w: int, coarse: bool, level: int, block: TileKind, px: int, pz: int)
    requires
        square_width_spec(w) >= 1,
        ring_cell(w, coarse, px, pz),
        coarse ==> level == 1 && block == TileKind::Filler,
        !coarse ==> level == 0 && block == TileKind::Center,
    ensures
        (exists|idx: int| 0 <= idx < 16 && slot_kept(level, idx) && slot_covers(w, idx, px, pz))
            || block_covers(block, w, px, pz),
{
    let q = square_width_spec(w);
    let f = filler_width_spec(w);
    lemma_width_decomposition(w);
    assert(w - f == 2 * q);
    if 0 <= px < f || 0 <= pz < f {
        assert(block_covers(block, w, px, pz));
    } else {
        let c: int = if px < -q {
            0
        } else if px < 0 {
            1
        } else if px < q + f {
            2
        } else {
            3
        };
        let r: int = if pz < -q {
            0
        } else if pz < 0 {
            1
        } else if pz < q + f {
            2
        } else {
            3
        };
        let idx = 4 * r + c;
        vstd::arithmetic::div_mod::lemma_fundamental_div_mod_converse(idx, 4, r, c);
        assert(idx % 4 == c && idx / 4 == r);
        let offx = square_slot_offset(w, idx).0;
        let offz = square_slot_offset(w, idx).1;
        if c == 0 {
            assert((c - 2) * q == -2 * q) by (nonlinear_arith)
                requires
                    c == 0,
            ;
            assert(0 <= px - offx < q);
        } else if c == 1 {
            assert((c - 2) * q == -q) by (nonlinear_arith)
                requires
                    c == 1,
            ;
            assert(0 <= px - offx < q);
        } else if c == 2 {
            assert((c - 2) * q == 0) by (nonlinear_arith)
                requires
                    c == 2,
            ;
            assert(0 <= px - offx < q);
        } else {
            assert((c - 2) * q == q) by (nonlinear_arith)
                requires
                    c == 3,
            ;
            assert(0 <= px - offx < q);
        }
        if r == 0 {
            assert((r - 2) * q == -2 * q) by (nonlinear_arith)
                requires
                    r == 0,
            ;
            assert((idx / 4 - 2) * q == (r - 2) * q);
            assert(f - w == -(2 * q));
            assert(0 <= pz - offz < q);
        } else if r == 1 {
            assert((r - 2) * q == -q) by (nonlinear_arith)
                requires
                    r == 1,
            ;
            assert(0 <= pz - offz < q);
        } else if r == 2 {
            assert((r - 2) * q == 0) by (nonlinear_arith)
                requires
                    r == 2,
            ;
            assert(0 <= pz - offz < q);
        } else {
            assert((r - 2) * q == q) by (nonlinear_arith)
                requires
                    r == 3,
            ;
            assert(0 <= pz - offz < q);
        }
        assert(slot_covers(w, idx, px, pz));
        assert(slot_kept(level, idx));
        assert(0 <= idx < 16);
        assert(exists|k: int| 0 <= k < 16 && slot_kept(level, k) && slot_covers(w, k, px, pz));
    }
}

/// Ring coverage, pointwise and exact: the square placements of one
/// level together with its block tile (filler on coarse levels, center
/// on the finest) cover each cell of the level's ring exactly once —
/// no gaps and no overlaps outside the trim boundary. Together with
/// `lemma_slots_disjoint`, every ring cell has exactly one covering
/// placement. `level` and `block` spell the level kind out: any
/// nonzero level behaves like level one, so one stands for them all.
pub proof fn lemma_ring_exact_cover(w: int, coarse: bool, level: int, block: TileKind, px: int, pz: int)
    requires
        square_width_spec(w) >= 1,
        coarse ==> level == 1 && block == TileKind::Filler,
        !coarse ==> level == 0 && block == TileKind::Center,
    ensures
        ((exists|idx: int| 0 <= idx < 16 && slot_kept(level, idx) && slot_covers(w, idx, px, pz))
            || block_covers(block, w, px, pz)) <==> ring_cell(w, coarse, px, pz),
        !(block_covers(block, w, px, pz) && (exists|idx: int|
            0 <= idx < 16 && slot_kept(level, idx) && slot_covers(w, idx, px, pz))),
{
    let q = square_width_spec(w);
    let f = filler_width_spec(w);
    lemma_width_decomposition(w);
    assert(w - f == 2 * q);

    // A covered slot cell lies in the ring: inside the covered square,
    // and, on a coarse level, outside the hole since a kept slot avoids
    // the middle 2x2 block.
    if exists|idx: int| 0 <= idx < 16 && slot_kept(level, idx) && slot_covers(w, idx, px, pz) {
        let idx = choose|idx: int|
            0 <= idx < 16 && slot_kept(level, idx) && slot_covers(w, idx, px, pz);
        lemma_slot_cover_shape(w, idx, px, pz);
        assert(ring_cell(w, coarse, px, pz));
    }

    // A covered block cell lies in the ring: the filler's cells sit on
    // the seam band outside the hole, the center's on the whole band.
    if block_covers(block, w, px, pz) {
        assert(ring_cell(w, coarse, px, pz));
    }

    // Every ring cell is covered: band cells by the block tile, the
    // rest by the square slot its column and row determine.
    if ring_cell(w, coarse, px, pz) {
        lemma_ring_cell_has_cover(w, coarse, level, block, px, pz);
    }

    // No overlap: block cells sit on the seam band, slot cells never
    // do.
    if block_covers(block, w, px, pz) {
        if exists|idx: int| 0 <= idx < 16 && slot_kept(level, idx) && slot_covers(w, idx, px, pz) {
            let idx = choose|idx: int|
                0 <= idx < 16 && slot_kept(level, idx) && slot_covers(w, idx, px, pz);
            lemma_slot_cover_shape(w, idx, px, pz);
            assert(false);
        }
    }
}

} // verus!
