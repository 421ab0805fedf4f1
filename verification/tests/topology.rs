use clipmap::topology::level_placements;
use clipmap::{Clipmap, ClipmapConfig, ConfigError, TileKind};

fn config(half_width: u32, levels: u32) -> ClipmapConfig {
    ClipmapConfig {
        half_width,
        levels,
        base_scale_num: 2,
        texel_size_num: 1,
        target: 1,
        color: 2,
        heightmap: 3,
        horizon: 4,
        horizon_coeffs: 8,
        min_height_num: -1000,
        max_height_num: 1000,
        wireframe: false,
    }
}

#[test]
fn finest_level_composition() {
    // half_width 64: square width 31. The finest level places all 16
    // squares, one center over the omitted block's offset and one trim.
    let v = level_placements(64, 0);
    assert_eq!(v.len(), 18);
    assert_eq!(v.iter().filter(|p| p.kind == TileKind::Square).count(), 16);
    assert_eq!(v.iter().filter(|p| p.kind == TileKind::Center).count(), 1);
    assert_eq!(v.iter().filter(|p| p.kind == TileKind::Trim).count(), 1);
    assert_eq!(v.iter().filter(|p| p.kind == TileKind::Stitch).count(), 0);
    let center = v.iter().find(|p| p.kind == TileKind::Center).unwrap();
    assert_eq!((center.offset_x, center.offset_z, center.half_scale), (-62, -62, false));
    let trim = v.iter().find(|p| p.kind == TileKind::Trim).unwrap();
    assert_eq!((trim.offset_x, trim.offset_z), (-62, -62));
}

#[test]
fn coarse_level_composition() {
    // Coarser levels omit the inner 2x2 square block and place a filler
    // plus a half-scale stitch instead of the center.
    let v = level_placements(64, 3);
    assert_eq!(v.len(), 15);
    assert_eq!(v.iter().filter(|p| p.kind == TileKind::Square).count(), 12);
    assert_eq!(v.iter().filter(|p| p.kind == TileKind::Filler).count(), 1);
    assert_eq!(v.iter().filter(|p| p.kind == TileKind::Stitch).count(), 1);
    assert_eq!(v.iter().filter(|p| p.kind == TileKind::Trim).count(), 1);
    let stitch = v.iter().find(|p| p.kind == TileKind::Stitch).unwrap();
    assert_eq!((stitch.offset_x, stitch.offset_z, stitch.half_scale), (-31, -31, true));
    assert!(v.iter().filter(|p| p.kind != TileKind::Stitch).all(|p| !p.half_scale));
}

#[test]
fn square_offsets_skip_the_seam() {
    // Columns and rows 2 and 3 are shifted by the filler width so the
    // seam gap in the middle stays open for the filler strip.
    let v = level_placements(64, 0);
    let squares: Vec<_> = v.iter().filter(|p| p.kind == TileKind::Square).collect();
    assert_eq!((squares[0].offset_x, squares[0].offset_z), (-62, -62));
    assert_eq!((squares[1].offset_x, squares[1].offset_z), (-31, -62));
    assert_eq!((squares[2].offset_x, squares[2].offset_z), (2, -62));
    assert_eq!((squares[3].offset_x, squares[3].offset_z), (33, -62));
    assert_eq!((squares[15].offset_x, squares[15].offset_z), (33, 33));
}

#[test]
fn coarse_level_omits_inner_block() {
    let v = level_placements(64, 1);
    let squares: Vec<_> = v.iter().filter(|p| p.kind == TileKind::Square).collect();
    // The omitted slots are the four with both offsets in {-31, 2}.
    for p in &squares {
        assert!(
            !((p.offset_x == -31 || p.offset_x == 2) && (p.offset_z == -31 || p.offset_z == 2))
        );
    }
    assert_eq!(squares.len(), 12);
}

#[test]
fn create_builds_all_levels() {
    let cm = Clipmap::create(config(64, 6)).unwrap();
    assert_eq!(cm.levels.len(), 6);
    for (i, level) in cm.levels.iter().enumerate() {
        assert_eq!(level.level as usize, i);
        let expected = if i == 0 { 18 } else { 15 };
        assert_eq!(level.placements.len(), expected);
    }
}

#[test]
fn create_rejects_misconfigurations() {
    assert_eq!(Clipmap::create(config(0, 6)).err(), Some(ConfigError::HalfWidthZero));
    assert_eq!(Clipmap::create(config(2, 6)).err(), Some(ConfigError::SquareWidthNotPositive));
    assert_eq!(Clipmap::create(config(64, 0)).err(), Some(ConfigError::LevelsZero));
    let mut c = config(64, 6);
    c.base_scale_num = 0;
    assert_eq!(Clipmap::create(c).err(), Some(ConfigError::ScaleNotPositive));
    let mut c = config(64, 6);
    c.texel_size_num = -1;
    assert_eq!(Clipmap::create(c).err(), Some(ConfigError::TexelSizeNotPositive));
    let mut c = config(64, 6);
    c.min_height_num = 5;
    c.max_height_num = 5;
    assert_eq!(Clipmap::create(c).err(), Some(ConfigError::HeightRangeEmpty));
}
