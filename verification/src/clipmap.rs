//! The clipmap handle: create once, update every tick.
//!
//! `create` validates the configuration, builds the five tile meshes and
//! the fixed per-level placement lists, and hands back an owning handle;
//! no partially built clipmap exists on rejection. `update` is the whole
//! per-tick work: it derives every level's frame state from the current
//! target position, carrying no state from tick to tick.

use vstd::prelude::*;

use crate::config::{ClipmapConfig, ConfigError};
use crate::factory::{build_tile_meshes, TileMeshSet};
use crate::snapper::{is_frame_state_for, snap_level, FrameState, MAX_TARGET_ABS};
use crate::topology::{level_placements, level_placements_spec, Placement};

verus! {

/// One detail level: its index and its fixed placement list.
pub struct LevelInstance {
    /// The level index, `0` being the finest.
    pub level: u32,
    /// The level's tile placements, fixed at creation.
    pub placements: Vec<Placement>,
}

impl LevelInstance {
    /// The placement list is exactly the fixed arrangement of this level.
    pub open spec fn wf(self, c: ClipmapConfig) -> bool {
        self.placements@ == level_placements_spec(c.half_width as int, self.level as int)
    }
}

/// Everything one uniform payload carries to the renderer for one placed
/// tile, handed back per call instead of mutated in place.
#[derive(Clone, Copy, PartialEq, Eq, Structural, Debug)]
pub struct TileUniform {
    /// Lower bound of the terrain height range, in sub-units.
    pub min_height_num: i64,
    /// Upper bound of the terrain height range, in sub-units.
    pub max_height_num: i64,
    /// The detail level the tile belongs to.
    pub level: u32,
    /// Physical size of one texel, in sub-units.
    pub texel_size_num: i64,
    /// Texture-sampling offset, x component, in sub-units.
    pub sampling_x: i64,
    /// Texture-sampling offset, z component, in sub-units.
    pub sampling_z: i64,
    /// Whether a wireframe companion should be rendered.
    pub wireframe: bool,
    /// Handle of the color texture.
    pub color: u64,
    /// Handle of the heightmap texture.
    pub heightmap: u64,
    /// Handle of the horizon-map texture.
    pub horizon: u64,
    /// Number of horizon-map coefficients.
    pub horizon_coeffs: u32,
}

/// A clipmap after successful creation: the immutable configuration, the
/// shared tile meshes with their bounds, and one instance per level. An
/// explicit owning tree, with no shared mutable state between levels.
pub struct Clipmap {
    /// The configuration the clipmap was created from.
    pub config: ClipmapConfig,
    /// The five tile meshes and their cached bounds.
    pub meshes: TileMeshSet,
    /// One instance per level, index `i` holding level `i`.
    pub levels: Vec<LevelInstance>,
}

impl Clipmap {
    /// Everything `create` establishes and every later call relies on.
    pub open spec fn wf(self) -> bool {
        &&& self.config.wf()
        &&& self.meshes.wf(self.config.half_width as int)
        &&& self.levels@.len() == self.config.levels
        &&& forall|i: int|
            0 <= i < self.levels@.len() ==> (#[trigger] self.levels@[i]).level == i
                && self.levels@[i].wf(self.config)
    }

    /// Builds meshes and topology once from a validated configuration.
    ///
    /// Succeeds exactly on well-formed configurations; a rejected one
    /// yields the first applicable error of `validate_spec` and no
    /// partial object.
    pub fn create(config: ClipmapConfig) -> (r: Result<Clipmap, ConfigError>)
        requires
            config.within_machine_limits(),
        ensures
            r is Ok <==> config.wf(),
            match r {
                Ok(cm) => cm.wf() && cm.config == config,
                Err(e) => config.validate_spec() == Err::<(), ConfigError>(e),
            },
    {
        match config.validate() {
            Ok(()) => {},
            Err(e) => {
                return Err(e);
            },
        }
        let meshes = build_tile_meshes(config.half_width).unwrap();
        let mut levels: Vec<LevelInstance> = Vec::new();
        let mut lv: u32 = 0;
        while lv < config.levels
            invariant
                0 <= lv <= config.levels,
                config.wf(),
                levels@.len() == lv,
                forall|i: int|
                    0 <= i < lv ==> (#[trigger] levels@[i]).level == i && levels@[i].wf(config),
            decreases config.levels - lv,
        {
            let placements = level_placements(config.half_width, lv);
            levels.push(LevelInstance { level: lv, placements });
            lv = lv + 1;
        }
        Ok(Clipmap { config, meshes, levels })
    }

    /// Runs the snapper for every level against the current target
    /// position: the whole per-tick recomputation. Element `i` of the
    /// result is level `i`'s frame state, a pure function of the inputs,
    /// so an unchanged target yields a bit-identical result.
    pub fn update(&self, target_x: i64, target_z: i64) -> (v: Vec<FrameState>)
        requires
            self.wf(),
            -MAX_TARGET_ABS <= target_x <= MAX_TARGET_ABS,
            -MAX_TARGET_ABS <= target_z <= MAX_TARGET_ABS,
        ensures
            v@.len() == self.config.levels,
            forall|i: int|
                0 <= i < v@.len() ==> is_frame_state_for(
                    #[trigger] v@[i],
                    self.config,
                    i,
                    target_x as int,
                    target_z as int,
                ),
    {
        let mut v: Vec<FrameState> = Vec::new();
        let mut lv: u32 = 0;
        while lv < self.config.levels
            invariant
                0 <= lv <= self.config.levels,
                self.config.wf(),
                -MAX_TARGET_ABS <= target_x <= MAX_TARGET_ABS,
                -MAX_TARGET_ABS <= target_z <= MAX_TARGET_ABS,
                v@.len() == lv,
                forall|i: int|
                    0 <= i < lv ==> is_frame_state_for(
                        #[trigger] v@[i],
                        self.config,
                        i,
                        target_x as int,
                        target_z as int,
                    ),
            decreases self.config.levels - lv,
        {
            let fs = snap_level(&self.config, lv, target_x, target_z);
            v.push(fs);
            lv = lv + 1;
        }
        v
    }

    /// Assembles the uniform payload of one placed tile from a level's
    /// frame state: plain values, handed to the renderer by the caller.
    pub fn tile_uniform(&self, fs: &FrameState) -> (u: TileUniform)
        ensures
            u.min_height_num == self.config.min_height_num,
            u.max_height_num == self.config.max_height_num,
            u.level == fs.level,
            u.texel_size_num == self.config.texel_size_num,
            u.sampling_x == fs.sampling_x,
            u.sampling_z == fs.sampling_z,
            u.wireframe == self.config.wireframe,
            u.color == self.config.color,
            u.heightmap == self.config.heightmap,
            u.horizon == self.config.horizon,
            u.horizon_coeffs == self.config.horizon_coeffs,
    {
        TileUniform {
            min_height_num: self.config.min_height_num,
            max_height_num: self.config.max_height_num,
            level: fs.level,
            texel_size_num: self.config.texel_size_num,
            sampling_x: fs.sampling_x,
            sampling_z: fs.sampling_z,
            wireframe: self.config.wireframe,
            color: self.config.color,
            heightmap: self.config.heightmap,
            horizon: self.config.horizon,
            horizon_coeffs: self.config.horizon_coeffs,
        }
    }
}

} // verus!
