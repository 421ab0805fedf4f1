//! Geometry-clipmap core.
//!
//! A geometry clipmap renders a very large terrain at bounded vertex cost:
//! nested square grids of doubling world-space cell size are kept centered
//! on a moving viewpoint, so screen-space density stays roughly uniform
//! without re-triangulating anything per frame.
//!
//! This crate holds the algorithmically precise part of such a renderer:
//!
//! * [`factory`] builds the five canonical tile meshes (square, filler,
//!   center, trim, stitch) on an integer lattice, with verified vertex
//!   welding;
//! * [`topology`] assigns each level of detail its fixed arrangement of
//!   tile placements;
//! * [`snapper`] computes, per frame and per level, the lattice-snapped
//!   origin, the parity-driven trim orientation and the texture-sampling
//!   offset;
//! * [`bounds`] derives per-level vertical culling bounds from the global
//!   height range;
//! * [`coverage`] proves the tiling laws: the placements of one level,
//!   transformed into its space, cover the level's ring exactly once.
//!
//! World-space positions, scales and heights are carried as fixed-point
//! integers: a value stands for `n` sub-units, where the caller picks one
//! common sub-unit for every quantity it hands in. All derived quantities
//! (snap factor, origin, sampling offset) are exact in that representation,
//! so a frame's state is a pure function of the target position.

pub mod bounds;
pub mod clipmap;
pub mod config;
pub mod coverage;
pub mod factory;
pub mod mesh;
pub mod snapper;
pub mod topology;

pub use bounds::TileBoundsY;
pub use clipmap::{Clipmap, LevelInstance, TileUniform};
pub use config::{ClipmapConfig, ConfigError};
pub use factory::{TileKind, TileMeshSet};
pub use mesh::{LatticePoint, TileBounds, TileMesh};
pub use snapper::{FrameState, TrimRotation};
pub use topology::Placement;
