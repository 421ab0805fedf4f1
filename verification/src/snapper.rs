//! Per-frame, per-level lattice snapping.
//!
//! Every frame, each detail level snaps its origin to an integer lattice of
//! its effective scale, classifies the snapped coordinate's parity, and
//! picks from a fixed four-row table the orientation and translation of the
//! L-shaped trim strip that closes the seam towards the next coarser ring.
//! Snapping to the coarser lattice (instead of following the target
//! continuously) keeps every vertex exactly representable; the ring visibly
//! jumps in whole increments of the effective scale.

use vstd::arithmetic::div_mod::{lemma_fundamental_div_mod, lemma_mod_bound};
use vstd::arithmetic::power2::{lemma2_to64, lemma_pow2_strictly_increases, pow2};
use vstd::prelude::*;

use crate::config::{filler_width_spec, ClipmapConfig, MAX_LEVELS, MAX_SCALE_NUM};

verus! {

/// Largest accepted magnitude for a target position component
/// (2^45 sub-units). A machine cap: keeps the snapped origin and the
/// sampling offset inside `i64`.
pub const MAX_TARGET_ABS: i64 = 35184372088832;

/// Upper bound on every effective scale numerator under the configuration
/// caps: `MAX_SCALE_NUM * 2^(MAX_LEVELS - 1) * 2` = 2^44.
pub const MAX_EFFECTIVE_SCALE: i64 = 17592186044416;

/// World-space cell size of a level, in sub-units: `base_scale * 2^level`.
pub open spec fn level_scale_num(c: ClipmapConfig, level: int) -> int {
    c.base_scale_num * pow2(level as nat)
}

/// The lattice pitch a level snaps to: its scale times the filler width.
pub open spec fn effective_scale_num(c: ClipmapConfig, level: int) -> int {
    level_scale_num(c, level) * filler_width_spec(c.half_width as int)
}

/// Component-wise integer floor of `pos / s` (`s > 0`): the snapped lattice
/// coordinate of the target.
pub open spec fn snap_factor_spec(pos: int, s: int) -> int {
    pos / s
}

/// The snap factor's parity, normalized into {0, 1} also for negative
/// snap factors.
pub open spec fn snap_parity_spec(pos: int, s: int) -> int {
    snap_factor_spec(pos, s) % 2
}

/// The level's placement translation: the snapped coordinate scaled back
/// to world space.
pub open spec fn world_origin_spec(pos: int, s: int) -> int {
    snap_factor_spec(pos, s) * s
}

/// Trim translation component used for parity 0: `filler_width - half_width`.
pub open spec fn trim_offset0_spec(c: ClipmapConfig) -> int {
    filler_width_spec(c.half_width as int) - c.half_width
}

/// Trim translation component used for parity 1: `half_width`.
pub open spec fn trim_offset1_spec(c: ClipmapConfig) -> int {
    c.half_width as int
}

/// One trim translation component, selected by the matching parity bit.
pub open spec fn trim_translation_spec(c: ClipmapConfig, parity: int) -> int {
    if parity == 0 {
        trim_offset0_spec(c)
    } else {
        trim_offset1_spec(c)
    }
}

/// Rotation of the trim strip about the vertical axis.
#[derive(Clone, Copy, PartialEq, Eq, Structural, Debug)]
pub enum TrimRotation {
    /// 0 degrees, for parity (0, 0).
    R0,
    /// +90 degrees, for parity (0, 1).
    R90,
    /// -90 degrees, for parity (1, 0).
    RNeg90,
    /// 180 degrees, for parity (1, 1).
    R180,
}

/// The fixed parity-to-rotation table. It orients the L-shaped trim to
/// cover whichever outer corner the snap discarded.
pub open spec fn trim_rotation_spec(parity_x: int, parity_z: int) -> TrimRotation {
    if parity_x == 0 && parity_z == 0 {
        TrimRotation::R0
    } else if parity_x == 0 {
        TrimRotation::R90
    } else if parity_z == 0 {
        TrimRotation::RNeg90
    } else {
        TrimRotation::R180
    }
}

/// Texture-sampling offset: the world origin plus the trim translation
/// scaled to world space. Passed to the shading stage so texture lookups
/// stay continuous across snap jumps.
pub open spec fn sampling_offset_spec(c: ClipmapConfig, pos: int, s: int) -> int {
    world_origin_spec(pos, s) + trim_translation_spec(c, snap_parity_spec(pos, s)) * s
}

/// Everything one level contributes to one frame. Recomputed wholesale
/// every tick from the current target position; never persisted.
#[derive(Clone, Copy, PartialEq, Eq, Structural, Debug)]
pub struct FrameState {
    /// The level this state belongs to.
    pub level: u32,
    /// Snapped lattice coordinate, x component.
    pub snap_x: i64,
    /// Snapped lattice coordinate, z component.
    pub snap_z: i64,
    /// Parity of `snap_x`, in {0, 1}.
    pub parity_x: i64,
    /// Parity of `snap_z`, in {0, 1}.
    pub parity_z: i64,
    /// Level placement translation in sub-units, x component.
    pub origin_x: i64,
    /// Level placement translation in sub-units, z component.
    pub origin_z: i64,
    /// Trim orientation selected by the parity pair.
    pub rotation: TrimRotation,
    /// Trim translation in level-local lattice units, x component.
    pub trim_x: i64,
    /// Trim translation in level-local lattice units, z component.
    pub trim_z: i64,
    /// Texture-sampling offset in sub-units, x component.
    pub sampling_x: i64,
    /// Texture-sampling offset in sub-units, z component.
    pub sampling_z: i64,
}

/// The full contract of the snapper: `fs` is exactly the frame state the
/// configuration, level and target position determine.
pub open spec fn is_frame_state_for(
    fs: FrameState,
    c: ClipmapConfig,
    level: int,
    px: int,
    pz: int,
) -> bool {
    let s = effective_scale_num(c, level);
    &&& fs.level == level
    &&& fs.snap_x == snap_factor_spec(px, s)
    &&& fs.snap_z == snap_factor_spec(pz, s)
    &&& fs.parity_x == snap_parity_spec(px, s)
    &&& fs.parity_z == snap_parity_spec(pz, s)
    &&& fs.origin_x == world_origin_spec(px, s)
    &&& fs.origin_z == world_origin_spec(pz, s)
    &&& fs.rotation == trim_rotation_spec(snap_parity_spec(px, s), snap_parity_spec(pz, s))
    &&& fs.trim_x == trim_translation_spec(c, snap_parity_spec(px, s))
    &&& fs.trim_z == trim_translation_spec(c, snap_parity_spec(pz, s))
    &&& fs.sampling_x == sampling_offset_spec(c, px, s)
    &&& fs.sampling_z == sampling_offset_spec(c, pz, s)
}

/// The effective scale is positive and capped whenever the configuration
/// is well-formed and the level in range.
pub proof fn lemma_effective_scale_bounds(c: ClipmapConfig, level: int)
    requires
        c.wf(),
        0 <= level < c.levels,
    ensures
        1 <= effective_scale_num(c, level) <= MAX_EFFECTIVE_SCALE,
{
    lemma2_to64();
    if level < 23 {
        lemma_pow2_strictly_increases(level as nat, 23);
    }
    let p = pow2(level as nat) as int;
    let f = filler_width_spec(c.half_width as int);
    assert(1 <= p <= 0x800000);
    assert(1 <= f <= 2);
    assert(1 <= c.base_scale_num * p * f <= MAX_EFFECTIVE_SCALE as int) by (nonlinear_arith)
        requires
            1 <= c.base_scale_num <= MAX_SCALE_NUM as int,
            1 <= p <= 0x800000,
            1 <= f <= 2,
            MAX_SCALE_NUM == 1048576i64,
            MAX_EFFECTIVE_SCALE == 17592186044416i64,
    ;
}

/// Floor division by a positive scale keeps the quotient within the
/// magnitude of the dividend, and scaling the quotient back lands within
/// one pitch below the dividend.
pub proof fn lemma_snap_bounds(pos: int, s: int)
    requires
        1 <= s,
        -(MAX_TARGET_ABS as int) <= pos <= MAX_TARGET_ABS as int,
    ensures
        -(MAX_TARGET_ABS as int) <= snap_factor_spec(pos, s) <= MAX_TARGET_ABS as int,
        pos - s < world_origin_spec(pos, s) <= pos,
{
    lemma_fundamental_div_mod(pos, s);
    lemma_mod_bound(pos, s);
    let q = pos / s;
    let r = pos % s;
    assert(s * q == pos - r);
    assert({
        &&& -(MAX_TARGET_ABS as int) <= q <= MAX_TARGET_ABS as int
        &&& pos - s < q * s <= pos
    }) by (nonlinear_arith)
        requires
            s * q == pos - r,
            0 <= r < s,
            1 <= s,
            -(MAX_TARGET_ABS as int) <= pos <= MAX_TARGET_ABS as int,
    ;
}

/// World-space scale of one level, exact in sub-units: `base_scale *
/// 2^level`. The renderer applies it as the level's placement scale.
pub fn level_scale(c: &ClipmapConfig, level: u32) -> (s: i64)
    requires
        c.wf(),
        level < c.levels,
    ensures
        s == level_scale_num(*c, level as int),
        1 <= s,
{
    proof {
        lemma2_to64();
    }
    let mut scale: i64 = c.base_scale_num;
    let mut i: u32 = 0;
    while i < level
        invariant
            0 <= i <= level,
            level < c.levels,
            c.wf(),
            scale == c.base_scale_num * pow2(i as nat),
            1 <= scale,
            pow2(i as nat) <= 0x800000,
        decreases level - i,
    {
        proof {
            lemma2_to64();
            lemma_pow2_strictly_increases(i as nat, (i + 1) as nat);
            if i + 1 < 23 {
                lemma_pow2_strictly_increases((i + 1) as nat, 23);
            }
            assert(pow2((i + 1) as nat) == 2 * pow2(i as nat))
                by {
                vstd::arithmetic::power2::lemma_pow2_unfold((i + 1) as nat);
            }
            assert(2 * scale == c.base_scale_num * pow2((i + 1) as nat)) by (nonlinear_arith)
                requires
                    scale == c.base_scale_num * pow2(i as nat),
                    pow2((i + 1) as nat) == 2 * pow2(i as nat),
            ;
            assert(c.base_scale_num * pow2((i + 1) as nat) <= MAX_SCALE_NUM * 0x1000000)
                by (nonlinear_arith)
                requires
                    1 <= c.base_scale_num <= MAX_SCALE_NUM as int,
                    pow2((i + 1) as nat) <= 0x1000000,
            ;
        }
        scale = 2 * scale;
        i = i + 1;
    }
    scale
}

/// Effective snapping scale of one level: `base_scale * 2^level *
/// filler_width`, exact in sub-units.
pub fn effective_scale(c: &ClipmapConfig, level: u32) -> (s: i64)
    requires
        c.wf(),
        level < c.levels,
    ensures
        s == effective_scale_num(*c, level as int),
        1 <= s <= MAX_EFFECTIVE_SCALE,
{
    let scale = level_scale(c, level);
    let f = c.filler_width();
    proof {
        lemma_effective_scale_bounds(*c, level as int);
        assert(scale * f == effective_scale_num(*c, level as int));
    }
    scale * f
}

/// One snapped component: `floor(pos / s)` on the integer lattice of
/// pitch `s`.
fn snap_component(pos: i64, s: i64) -> (q: i64)
    requires
        1 <= s,
        -MAX_TARGET_ABS <= pos <= MAX_TARGET_ABS,
    ensures
        q == snap_factor_spec(pos as int, s as int),
        -MAX_TARGET_ABS <= q <= MAX_TARGET_ABS,
{
    proof {
        lemma_snap_bounds(pos as int, s as int);
    }
    pos.checked_div_euclid(s).unwrap()
}

/// One parity component, normalized into {0, 1}.
fn parity_component(snap: i64) -> (p: i64)
    ensures
        p == snap as int % 2,
        0 <= p <= 1,
{
    proof {
        lemma_mod_bound(snap as int, 2);
    }
    snap.checked_rem_euclid(2).unwrap()
}

/// Runs the snapper for one level: snap factor, parity, world origin, trim
/// orientation and translation, and texture-sampling offset, all as pure
/// functions of the target position.
///
/// Deterministic and total on its domain: the returned state is the one
/// `is_frame_state_for` pins down, so re-running with an unchanged target
/// returns a bit-identical state.
pub fn snap_level(c: &ClipmapConfig, level: u32, target_x: i64, target_z: i64) -> (fs: FrameState)
    requires
        c.wf(),
        level < c.levels,
        -MAX_TARGET_ABS <= target_x <= MAX_TARGET_ABS,
        -MAX_TARGET_ABS <= target_z <= MAX_TARGET_ABS,
    ensures
        is_frame_state_for(fs, *c, level as int, target_x as int, target_z as int),
{
    let s = effective_scale(c, level);
    let snap_x = snap_component(target_x, s);
    let snap_z = snap_component(target_z, s);
    let parity_x = parity_component(snap_x);
    let parity_z = parity_component(snap_z);
    proof {
        lemma_snap_bounds(target_x as int, s as int);
        lemma_snap_bounds(target_z as int, s as int);
    }
    let origin_x = snap_x * s;
    let origin_z = snap_z * s;
    let f = c.filler_width();
    let w = c.half_width as i64;
    let trim_x = if parity_x == 0 { f - w } else { w };
    let trim_z = if parity_z == 0 { f - w } else { w };
    let rotation = if parity_x == 0 && parity_z == 0 {
        TrimRotation::R0
    } else if parity_x == 0 {
        TrimRotation::R90
    } else if parity_z == 0 {
        TrimRotation::RNeg90
    } else {
        TrimRotation::R180
    };
    proof {
        assert(-0x200000000000000 <= trim_x * s <= 0x200000000000000) by (nonlinear_arith)
            requires
                -8192 <= trim_x <= 8192,
                1 <= s <= MAX_EFFECTIVE_SCALE as int,
                MAX_EFFECTIVE_SCALE == 17592186044416i64,
        ;
        assert(-0x200000000000000 <= trim_z * s <= 0x200000000000000) by (nonlinear_arith)
            requires
                -8192 <= trim_z <= 8192,
                1 <= s <= MAX_EFFECTIVE_SCALE as int,
                MAX_EFFECTIVE_SCALE == 17592186044416i64,
        ;
    }
    let sampling_x = origin_x + trim_x * s;
    let sampling_z = origin_z + trim_z * s;
    FrameState {
        level,
        snap_x,
        snap_z,
        parity_x,
        parity_z,
        origin_x,
        origin_z,
        rotation,
        trim_x,
        trim_z,
        sampling_x,
        sampling_z,
    }
}

/// The snap parity lies in {0, 1} x {0, 1} for every target position and
/// every positive scale.
pub proof fn lemma_snap_parity_in_range(pos: int, s: int)
    requires
        1 <= s,
    ensures
        0 <= snap_parity_spec(pos, s) <= 1,
{
    lemma_mod_bound(snap_factor_spec(pos, s), 2);
}

/// The trim table is a bijection between the four parity pairs and its
/// four rows: each parity pair yields its listed rotation and translation,
/// distinct parity pairs yield distinct rotations, and distinct parity
/// bits yield distinct translation components.
pub proof fn lemma_trim_table_bijective(c: ClipmapConfig)
    requires
        c.wf(),
    ensures
        trim_rotation_spec(0, 0) == TrimRotation::R0,
        trim_rotation_spec(0, 1) == TrimRotation::R90,
        trim_rotation_spec(1, 0) == TrimRotation::RNeg90,
        trim_rotation_spec(1, 1) == TrimRotation::R180,
        forall|px: int| 0 <= px <= 1 ==> trim_translation_spec(c, px) == if px == 0 {
            trim_offset0_spec(c)
        } else {
            trim_offset1_spec(c)
        },
        forall|ax: int, az: int, bx: int, bz: int|
            0 <= ax <= 1 && 0 <= az <= 1 && 0 <= bx <= 1 && 0 <= bz <= 1 && (ax != bx || az != bz)
                ==> trim_rotation_spec(ax, az) != trim_rotation_spec(bx, bz),
        forall|pa: int, pb: int|
            0 <= pa <= 1 && 0 <= pb <= 1 && pa != pb ==> trim_translation_spec(c, pa)
                != trim_translation_spec(c, pb),
{
    assert(trim_offset0_spec(c) != trim_offset1_spec(c));
}

/// Snapping is idempotent: two frame states computed from the same
/// configuration, level and target position are identical.
pub proof fn lemma_snapper_idempotent(
    a: FrameState,
    b: FrameState,
    c: ClipmapConfig,
    level: int,
    px: int,
    pz: int,
)
    requires
        is_frame_state_for(a, c, level, px, pz),
        is_frame_state_for(b, c, level, px, pz),
    ensures
        a == b,
{
}

} // verus!
