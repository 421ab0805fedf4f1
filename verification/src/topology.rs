//! The fixed arrangement of tile placements of each detail level.
//!
//! At creation time every level gets the same composition: sixteen square
//! tiles in a 4x4 arrangement (the inner 2x2 block omitted on every level
//! but the finest, whose area the next finer level covers), one center or
//! filler tile over the omitted block, one stitch tile at half the
//! level's scale on every level but the finest, and exactly one trim
//! tile. The composition is fixed for the clipmap's lifetime; only the
//! per-frame transforms differ between levels.

use vstd::prelude::*;

use crate::config::{filler_width_spec, square_width_spec, MAX_HALF_WIDTH};
use crate::factory::TileKind;

verus! {

/// One tile placement within a level: which mesh, at which level-local
/// lattice offset, and whether at half the level's scale.
#[derive(Clone, Copy, PartialEq, Eq, Structural, Debug)]
pub struct Placement {
    /// The referenced tile mesh.
    pub kind: TileKind,
    /// Level-local x offset, in lattice units of the level.
    pub offset_x: i64,
    /// Level-local z offset, in lattice units of the level.
    pub offset_z: i64,
    /// Scaled at half the level's scale, so vertices land on the next
    /// finer lattice (the stitch tile only).
    pub half_scale: bool,
}

/// The level-local offset of square slot `idx` (row-major in a 4x4
/// arrangement): `(col - 2) * square_width`, plus the filler width once
/// the column or row has crossed the seam gap in the middle.
pub open spec fn square_slot_offset(w: int, idx: int) -> (int, int) {
    let col = idx % 4;
    let row = idx / 4;
    let q = square_width_spec(w);
    let f = filler_width_spec(w);
    (
        (col - 2) * q + if col >= 2 { f } else { 0 },
        (row - 2) * q + if row >= 2 { f } else { 0 },
    )
}

/// Whether square slot `idx` is placed at this level: the finest level
/// keeps all sixteen, coarser levels omit the inner 2x2 block.
pub open spec fn slot_kept(level: int, idx: int) -> bool {
    let col = idx % 4;
    let row = idx / 4;
    level == 0 || !((col == 1 || col == 2) && (row == 1 || row == 2))
}

/// The placement of square slot `idx`.
pub open spec fn square_placement(w: int, idx: int) -> Placement {
    Placement {
        kind: TileKind::Square,
        offset_x: square_slot_offset(w, idx).0 as i64,
        offset_z: square_slot_offset(w, idx).1 as i64,
        half_scale: false,
    }
}

/// The kept square placements among the first `n` slots, in slot order.
pub open spec fn square_placements(w: int, level: int, n: int) -> Seq<Placement>
    decreases n,
{
    if n <= 0 {
        Seq::empty()
    } else if slot_kept(level, n - 1) {
        square_placements(w, level, n - 1).push(square_placement(w, n - 1))
    } else {
        square_placements(w, level, n - 1)
    }
}

/// The non-square placements of a level, after the squares: the center
/// tile (finest level) or the filler and half-scale stitch tiles (coarser
/// levels) over the omitted block's offset, then exactly one trim tile.
pub open spec fn tail_placements(w: int, level: int) -> Seq<Placement> {
    let q = square_width_spec(w);
    let block = Placement {
        kind: if level == 0 {
            TileKind::Center
        } else {
            TileKind::Filler
        },
        offset_x: (-2 * q) as i64,
        offset_z: (-2 * q) as i64,
        half_scale: false,
    };
    let stitch = Placement {
        kind: TileKind::Stitch,
        offset_x: (-q) as i64,
        offset_z: (-q) as i64,
        half_scale: true,
    };
    let trim = Placement {
        kind: TileKind::Trim,
        offset_x: (-2 * q) as i64,
        offset_z: (-2 * q) as i64,
        half_scale: false,
    };
    if level == 0 {
        seq![block, trim]
    } else {
        seq![block, stitch, trim]
    }
}

/// The complete placement list of one level.
pub open spec fn level_placements_spec(w: int, level: int) -> Seq<Placement> {
    square_placements(w, level, 16) + tail_placements(w, level)
}

/// Assembles the placement list of one level.
pub fn level_placements(half_width: u32, level: u32) -> (v: Vec<Placement>)
    requires
        1 <= half_width <= MAX_HALF_WIDTH,
    ensures
        v@ == level_placements_spec(half_width as int, level as int),
{
    let ghost w = half_width as int;
    let f: i64 = 2 - (half_width % 2) as i64;
    let q: i64 = ((half_width as u64 - f as u64) / 2) as i64;
    proof {
        assert(f == filler_width_spec(half_width as int));
        assert(q == square_width_spec(half_width as int));
    }
    let mut v: Vec<Placement> = Vec::new();
    let mut idx: u32 = 0;
    proof {
        assert(v@ =~= square_placements(w, level as int, 0));
    }
    while idx < 16
        invariant
            0 <= idx <= 16,
            1 <= half_width <= MAX_HALF_WIDTH,
            w == half_width as int,
            f == filler_width_spec(w),
            q == square_width_spec(w),
            0 <= q <= 4096,
            v@ == square_placements(w, level as int, idx as int),
        decreases 16 - idx,
    {
        let col = (idx % 4) as i64;
        let row = (idx / 4) as i64;
        let keep = level == 0 || !((col == 1 || col == 2) && (row == 1 || row == 2));
        proof {
            assert(keep == slot_kept(level as int, idx as int));
        }
        if keep {
            proof {
                assert(-8192 <= (col - 2) * q <= 8192) by (nonlinear_arith)
                    requires
                        -2 <= col - 2 <= 1,
                        0 <= q <= 4096,
                ;
                assert(-8192 <= (row - 2) * q <= 8192) by (nonlinear_arith)
                    requires
                        -2 <= row - 2 <= 1,
                        0 <= q <= 4096,
                ;
            }
            let off_x = (col - 2) * q + if col >= 2 { f } else { 0 };
            let off_z = (row - 2) * q + if row >= 2 { f } else { 0 };
            let p = Placement { kind: TileKind::Square, offset_x: off_x, offset_z: off_z, half_scale: false };
            proof {
                assert(p == square_placement(w, idx as int));
            }
            v.push(p);
        }
        idx = idx + 1;
    }
    let back: i64 = -(q + q);
    let block = Placement {
        kind: if level == 0 { TileKind::Center } else { TileKind::Filler },
        offset_x: back,
        offset_z: back,
        half_scale: false,
    };
    let trim = Placement {
        kind: TileKind::Trim,
        offset_x: back,
        offset_z: back,
        half_scale: false,
    };
    v.push(block);
    if level != 0 {
        let stitch = Placement {
            kind: TileKind::Stitch,
            offset_x: -q,
            offset_z: -q,
            half_scale: true,
        };
        v.push(stitch);
    }
    v.push(trim);
    proof {
        assert(v@ =~= level_placements_spec(w, level as int));
    }
    v
}

/// How many placements a level has: the finest level places sixteen
/// squares, a center and a trim; every coarser level places twelve
/// squares, a filler, a stitch and a trim.
pub proof fn lemma_level_placement_counts(w: int, level: int)
    ensures
        level == 0 ==> level_placements_spec(w, level).len() == 18,
        level != 0 ==> level_placements_spec(w, level).len() == 15,
{
    reveal_with_fuel(square_placements, 17);
    if level == 0 {
        assert(square_placements(w, level, 16).len() == 16);
    } else {
        assert(square_placements(w, level, 16).len() == 12);
    }
}

} // verus!
