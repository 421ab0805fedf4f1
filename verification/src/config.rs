//! Clipmap configuration and its creation-time validation.

use vstd::prelude::*;

verus! {

/// Largest accepted grid half-width. Keeps every lattice index, vertex
/// count and placement offset comfortably inside the fixed-width integer
/// types used by the mesh builder.
pub const MAX_HALF_WIDTH: u32 = 8192;

/// Largest accepted number of detail levels. Keeps `base_scale_num * 2^level`
/// representable.
pub const MAX_LEVELS: u32 = 24;

/// Largest accepted base scale numerator (2^20 sub-units per cell).
pub const MAX_SCALE_NUM: i64 = 1048576;

/// Largest accepted magnitude for the height range bounds (2^40 sub-units).
pub const MAX_HEIGHT_ABS: i64 = 1099511627776;

/// Width of the filler strip for a given half-width: 2 for an even
/// half-width, 1 for an odd one. Normalizing odd widths this way keeps the
/// outer boundary of the assembled ring a multiple of two.
pub open spec fn filler_width_spec(half_width: int) -> int {
    2 - half_width % 2
}

/// Side of the lattice the tile meshes are carved from: the full grid width.
pub open spec fn builder_width_spec(half_width: int) -> int {
    2 * half_width
}

/// Side of the square tile in lattice cells.
pub open spec fn square_width_spec(half_width: int) -> int {
    (half_width - filler_width_spec(half_width)) / 2
}

/// Immutable per-clipmap configuration.
///
/// `base_scale_num` and `texel_size_num`, the height bounds and later every
/// target position are integers counting one common caller-chosen sub-unit,
/// so the per-frame snapping arithmetic is exact. `target`, `color`,
/// `heightmap` and `horizon` are opaque handles for external collaborators
/// (a position source and decoded textures); this crate only carries them
/// through to the per-tile uniform payloads.
pub struct ClipmapConfig {
    /// Half of the full grid width; the full width must be even.
    pub half_width: u32,
    /// Number of detail levels; each level covers twice the area of the previous.
    pub levels: u32,
    /// World-space size of one finest-level cell, in sub-units.
    pub base_scale_num: i64,
    /// Physical size of one texel, in sub-units.
    pub texel_size_num: i64,
    /// Handle of the followed position source.
    pub target: u64,
    /// Handle of the color texture.
    pub color: u64,
    /// Handle of the heightmap texture.
    pub heightmap: u64,
    /// Handle of the horizon-map texture.
    pub horizon: u64,
    /// Number of horizon-map coefficients.
    pub horizon_coeffs: u32,
    /// Lower bound of the terrain height range, in sub-units.
    pub min_height_num: i64,
    /// Upper bound of the terrain height range, in sub-units.
    pub max_height_num: i64,
    /// Whether wireframe companions should be rendered.
    pub wireframe: bool,
}

/// Why a configuration was rejected at creation time. No partially built
/// clipmap exists after a rejection.
#[derive(Clone, Copy, PartialEq, Eq, Structural, Debug)]
pub enum ConfigError {
    /// `half_width` is zero.
    HalfWidthZero,
    /// `half_width` is too small to carve a square tile of positive width.
    SquareWidthNotPositive,
    /// `levels` is zero.
    LevelsZero,
    /// `base_scale_num` is not positive.
    ScaleNotPositive,
    /// `texel_size_num` is not positive.
    TexelSizeNotPositive,
    /// `min_height_num` is not below `max_height_num`.
    HeightRangeEmpty,
}

impl ClipmapConfig {
    /// Machine-size caps that the caller must respect so that every product
    /// computed from the configuration fits an `i64`.
    pub open spec fn within_machine_limits(self) -> bool {
        &&& self.half_width <= MAX_HALF_WIDTH
        &&& self.levels <= MAX_LEVELS
        &&& self.base_scale_num <= MAX_SCALE_NUM
        &&& -MAX_HEIGHT_ABS <= self.min_height_num <= MAX_HEIGHT_ABS
        &&& -MAX_HEIGHT_ABS <= self.max_height_num <= MAX_HEIGHT_ABS
    }

    /// A configuration every component accepts: validated and within the
    /// machine-size caps.
    pub open spec fn wf(self) -> bool {
        &&& self.within_machine_limits()
        &&& 0 < self.half_width
        &&& square_width_spec(self.half_width as int) >= 1
        &&& 0 < self.levels
        &&& 0 < self.base_scale_num
        &&& 0 < self.texel_size_num
        &&& self.min_height_num < self.max_height_num
    }

    /// The exact outcome of validation, first applicable rejection wins.
    pub open spec fn validate_spec(self) -> Result<(), ConfigError> {
        if self.half_width == 0 {
            Err(ConfigError::HalfWidthZero)
        } else if square_width_spec(self.half_width as int) < 1 {
            Err(ConfigError::SquareWidthNotPositive)
        } else if self.levels == 0 {
            Err(ConfigError::LevelsZero)
        } else if self.base_scale_num <= 0 {
            Err(ConfigError::ScaleNotPositive)
        } else if self.texel_size_num <= 0 {
            Err(ConfigError::TexelSizeNotPositive)
        } else if self.min_height_num >= self.max_height_num {
            Err(ConfigError::HeightRangeEmpty)
        } else {
            Ok(())
        }
    }

    /// Rejects a misconfiguration before any geometry or topology is built.
    ///
    /// Succeeds exactly on well-formed configurations: `Ok` is returned if
    /// and only if `self.wf()` holds, and each rejected input yields the
    /// error listed in `validate_spec`.
    pub fn validate(&self) -> (r: Result<(), ConfigError>)
        requires
            self.within_machine_limits(),
        ensures
            r == self.validate_spec(),
            r is Ok <==> self.wf(),
    {
        if self.half_width == 0 {
            Err(ConfigError::HalfWidthZero)
        } else if self.square_width() < 1 {
            Err(ConfigError::SquareWidthNotPositive)
        } else if self.levels == 0 {
            Err(ConfigError::LevelsZero)
        } else if self.base_scale_num <= 0 {
            Err(ConfigError::ScaleNotPositive)
        } else if self.texel_size_num <= 0 {
            Err(ConfigError::TexelSizeNotPositive)
        } else if self.min_height_num >= self.max_height_num {
            Err(ConfigError::HeightRangeEmpty)
        } else {
            Ok(())
        }
    }

    /// Width of the filler strip, `2 - half_width % 2`.
    pub fn filler_width(&self) -> (f: i64)
        requires
            self.within_machine_limits(),
        ensures
            f == filler_width_spec(self.half_width as int),
            1 <= f <= 2,
    {
        2 - (self.half_width as i64) % 2
    }

    /// Full width of the mesh-builder lattice, `2 * half_width`.
    pub fn builder_width(&self) -> (b: i64)
        requires
            self.within_machine_limits(),
        ensures
            b == builder_width_spec(self.half_width as int),
    {
        2 * (self.half_width as i64)
    }

    /// Side of the square tile, `(half_width - filler_width) / 2`.
    pub fn square_width(&self) -> (q: i64)
        requires
            self.within_machine_limits(),
        ensures
            q == square_width_spec(self.half_width as int),
    {
        let w = self.half_width as i64;
        let f = 2 - w % 2;
        (w - f) / 2
    }
}

/// The lattice decomposes exactly: the square sides, the filler strip and
/// the half-width tie together as `2 * square_width + filler_width ==
/// half_width`, for every positive half-width.
pub proof fn lemma_width_decomposition(half_width: int)
    requires
        half_width >= 1,
    ensures
        2 * square_width_spec(half_width) + filler_width_spec(half_width) == half_width,
        1 <= filler_width_spec(half_width) <= 2,
{
    let f = filler_width_spec(half_width);
    let d = half_width - f;
    vstd::arithmetic::div_mod::lemma_fundamental_div_mod(half_width, 2);
    vstd::arithmetic::div_mod::lemma_fundamental_div_mod(d, 2);
    vstd::arithmetic::div_mod::lemma_mod_bound(half_width, 2);
    vstd::arithmetic::div_mod::lemma_mod_bound(d, 2);
    assert(d % 2 == 0) by {
        assert(d == 2 * (half_width / 2) + (half_width % 2) - (2 - half_width % 2));
        if half_width % 2 == 0 {
            assert(d == 2 * (half_width / 2) - 2);
            assert(d == 2 * (half_width / 2 - 1));
            vstd::arithmetic::div_mod::lemma_mod_multiples_basic(half_width / 2 - 1, 2);
        } else {
            assert(d == 2 * (half_width / 2) - 1 + half_width % 2);
            assert(d == 2 * (half_width / 2));
            vstd::arithmetic::div_mod::lemma_mod_multiples_basic(half_width / 2, 2);
        }
    }
}

} // verus!
