//! Per-level vertical culling bounds.
//!
//! Every placed tile of a level advertises a vertical extent to the
//! renderer's visibility culling. The extent is derived from the global
//! height range and shrinks with the level index: coarser rings are
//! farther from the viewer and display less vertical detail. The values
//! are advisory; wrong ones cause visual popping, never a correctness
//! failure of this subsystem.
//!
//! A bound component is an exact binary rational `num / 2^shift`, so the
//! repeated halving loses nothing to rounding.

use vstd::arithmetic::power2::{lemma_pow2_pos, lemma_pow2_unfold, pow2};
use vstd::prelude::*;

use crate::config::ClipmapConfig;

verus! {

/// Vertical culling bound of every tile placed under one level: the
/// center and half-extent of the height interval, each standing for
/// `num / 2^shift` sub-units.
#[derive(Clone, Copy, PartialEq, Eq, Structural, Debug)]
pub struct TileBoundsY {
    /// Numerator of the bound center, `max + min`.
    pub center_num: i64,
    /// Numerator of the bound half-extent, `max - min`.
    pub half_extent_num: i64,
    /// Common binary exponent of the denominator, `level + 1`.
    pub shift: u32,
}

/// The two binary rationals `n1 / 2^s1` and `n2 / 2^s2` are equal.
pub open spec fn rat_eq(n1: int, s1: nat, n2: int, s2: nat) -> bool {
    n1 * pow2(s2) == n2 * pow2(s1)
}

/// The binary rational `n1 / 2^s1` is strictly below `n2 / 2^s2`.
pub open spec fn rat_lt(n1: int, s1: nat, n2: int, s2: nat) -> bool {
    n1 * pow2(s2) < n2 * pow2(s1)
}

/// The bound a well-formed configuration determines for one level:
/// center `(max + min) / 2^(level+1)`, half-extent `(max - min) /
/// 2^(level+1)`.
pub open spec fn bounds_for_level(c: ClipmapConfig, level: int) -> TileBoundsY {
    TileBoundsY {
        center_num: (c.max_height_num + c.min_height_num) as i64,
        half_extent_num: (c.max_height_num - c.min_height_num) as i64,
        shift: (level + 1) as u32,
    }
}

/// Derives the vertical culling bound of every tile placed under `level`.
pub fn vertical_bounds(c: &ClipmapConfig, level: u32) -> (b: TileBoundsY)
    requires
        c.wf(),
        level < c.levels,
    ensures
        b == bounds_for_level(*c, level as int),
        b.half_extent_num > 0,
{
    TileBoundsY {
        center_num: c.max_height_num + c.min_height_num,
        half_extent_num: c.max_height_num - c.min_height_num,
        shift: level + 1,
    }
}

/// The half-extent bound strictly halves with each increasing level:
/// the bound of level `L+1` equals exactly half the bound of level `L`,
/// and is strictly below it. The same exact halving holds for the center.
pub proof fn lemma_bounds_strictly_halve(c: ClipmapConfig, level: int)
    requires
        c.wf(),
        0 <= level,
        level + 1 < c.levels,
    ensures
        ({
            let coarse = bounds_for_level(c, level + 1);
            let fine = bounds_for_level(c, level);
            &&& rat_eq(
                2 * coarse.half_extent_num,
                coarse.shift as nat,
                fine.half_extent_num as int,
                fine.shift as nat,
            )
            &&& rat_lt(
                coarse.half_extent_num as int,
                coarse.shift as nat,
                fine.half_extent_num as int,
                fine.shift as nat,
            )
            &&& rat_eq(
                2 * coarse.center_num,
                coarse.shift as nat,
                fine.center_num as int,
                fine.shift as nat,
            )
        }),
{
    let sf = (level + 1) as nat;
    let sc = (level + 2) as nat;
    let h = (c.max_height_num - c.min_height_num) as int;
    let m = (c.max_height_num + c.min_height_num) as int;
    lemma_pow2_pos(sf);
    lemma_pow2_unfold(sc);
    assert(pow2(sc) == 2 * pow2(sf));
    assert(2 * h * pow2(sf) == h * pow2(sc)) by (nonlinear_arith)
        requires
            pow2(sc) == 2 * pow2(sf),
    ;
    assert(2 * m * pow2(sf) == m * pow2(sc)) by (nonlinear_arith)
        requires
            pow2(sc) == 2 * pow2(sf),
    ;
    assert(h * pow2(sf) < h * pow2(sc)) by (nonlinear_arith)
        requires
            pow2(sc) == 2 * pow2(sf),
            h > 0,
            pow2(sf) > 0,
    ;
}

} // verus!
