use clipmap::snapper::{level_scale, MAX_TARGET_ABS};
use clipmap::{Clipmap, ClipmapConfig, TrimRotation};

fn config(half_width: u32, levels: u32, base_scale_num: i64) -> ClipmapConfig {
    ClipmapConfig {
        half_width,
        levels,
        base_scale_num,
        texel_size_num: 1,
        target: 1,
        color: 2,
        heightmap: 3,
        horizon: 4,
        horizon_coeffs: 8,
        min_height_num: -1000,
        max_height_num: 1000,
        wireframe: false,
    }
}

#[test]
fn scenario_origin_all_levels() {
    // half_width 64, 6 levels, base scale 2, target at the origin: the
    // snap factor is (0, 0) at every level, so the trim rotation is 0
    // degrees everywhere.
    let cm = Clipmap::create(config(64, 6, 2)).unwrap();
    let frames = cm.update(0, 0);
    assert_eq!(frames.len(), 6);
    for fs in &frames {
        assert_eq!(fs.snap_x, 0);
        assert_eq!(fs.snap_z, 0);
        assert_eq!((fs.parity_x, fs.parity_z), (0, 0));
        assert_eq!(fs.rotation, TrimRotation::R0);
        assert_eq!((fs.origin_x, fs.origin_z), (0, 0));
    }
}

#[test]
fn scenario_level_zero_snap() {
    // base scale 2, level 0, filler width 2: effective scale 4. Target
    // (130, _, 65) snaps to (floor(130/4), floor(65/4)) = (32, 16),
    // parity (0, 0), rotation 0 degrees.
    let cm = Clipmap::create(config(64, 6, 2)).unwrap();
    let frames = cm.update(130, 65);
    let fs = &frames[0];
    assert_eq!((fs.snap_x, fs.snap_z), (32, 16));
    assert_eq!((fs.parity_x, fs.parity_z), (0, 0));
    assert_eq!(fs.rotation, TrimRotation::R0);
    assert_eq!((fs.origin_x, fs.origin_z), (128, 64));
}

#[test]
fn scenario_level_one_parities() {
    // At level 1 the effective scale is 8. Target (132, _, 68) snaps to
    // (16, 8), parity (0, 0); target (136, _, 68) snaps to (17, 8),
    // parity (1, 0), rotation -90 degrees.
    let cm = Clipmap::create(config(64, 6, 2)).unwrap();
    let even = cm.update(132, 68);
    assert_eq!((even[1].snap_x, even[1].snap_z), (16, 8));
    assert_eq!((even[1].parity_x, even[1].parity_z), (0, 0));
    assert_eq!(even[1].rotation, TrimRotation::R0);
    let odd = cm.update(136, 68);
    assert_eq!((odd[1].snap_x, odd[1].snap_z), (17, 8));
    assert_eq!((odd[1].parity_x, odd[1].parity_z), (1, 0));
    assert_eq!(odd[1].rotation, TrimRotation::RNeg90);
}

#[test]
fn parity_stays_in_range_for_negative_targets() {
    let cm = Clipmap::create(config(64, 6, 2)).unwrap();
    for &(x, z) in &[(-1i64, -5i64), (-4, 3), (-1000000, -999999), (7, -7), (0, -1)] {
        for fs in &cm.update(x, z) {
            assert!(fs.parity_x == 0 || fs.parity_x == 1);
            assert!(fs.parity_z == 0 || fs.parity_z == 1);
        }
    }
}

#[test]
fn negative_targets_floor_towards_minus_infinity() {
    // Effective scale 4 at level 0: floor semantics resolve positions
    // between lattice points deterministically, also below zero.
    let cm = Clipmap::create(config(64, 1, 2)).unwrap();
    let fs = cm.update(-1, -4)[0];
    assert_eq!((fs.snap_x, fs.snap_z), (-1, -1));
    assert_eq!((fs.origin_x, fs.origin_z), (-4, -4));
    assert_eq!((fs.parity_x, fs.parity_z), (1, 1));
    assert_eq!(fs.rotation, TrimRotation::R180);
}

#[test]
fn trim_table_rows() {
    // Effective scale 4 at level 0; offset0 = filler_width - half_width
    // = -62, offset1 = half_width = 64. One target per parity pair.
    let cm = Clipmap::create(config(64, 1, 2)).unwrap();
    let cases: &[((i64, i64), (i64, i64), TrimRotation, (i64, i64))] = &[
        ((0, 0), (0, 0), TrimRotation::R0, (-62, -62)),
        ((0, 4), (0, 1), TrimRotation::R90, (-62, 64)),
        ((4, 0), (1, 0), TrimRotation::RNeg90, (64, -62)),
        ((4, 4), (1, 1), TrimRotation::R180, (64, 64)),
    ];
    for &(target, parity, rotation, translation) in cases {
        let fs = cm.update(target.0, target.1)[0];
        assert_eq!((fs.parity_x, fs.parity_z), parity);
        assert_eq!(fs.rotation, rotation);
        assert_eq!((fs.trim_x, fs.trim_z), translation);
    }
}

#[test]
fn trim_rotations_distinct() {
    let cm = Clipmap::create(config(64, 1, 2)).unwrap();
    let rotations: Vec<TrimRotation> =
        [(0i64, 0i64), (0, 4), (4, 0), (4, 4)].iter().map(|&(x, z)| cm.update(x, z)[0].rotation).collect();
    for i in 0..4 {
        for j in 0..4 {
            if i != j {
                assert_ne!(rotations[i], rotations[j]);
            }
        }
    }
}

#[test]
fn snapper_is_idempotent() {
    // An unchanged target position yields a bit-identical frame state
    // list.
    let cm = Clipmap::create(config(64, 6, 2)).unwrap();
    for &(x, z) in &[(0i64, 0i64), (130, 65), (-12345, 6789)] {
        let first = cm.update(x, z);
        let second = cm.update(x, z);
        assert_eq!(first, second);
    }
}

#[test]
fn sampling_offset_follows_trim() {
    // Level 0, effective scale 4, target (130, 65): origin (128, 64),
    // trim translation (-62, -62), so the sampling offset is the origin
    // plus the translation scaled by 4.
    let cm = Clipmap::create(config(64, 1, 2)).unwrap();
    let fs = cm.update(130, 65)[0];
    assert_eq!(fs.sampling_x, 128 + (-62) * 4);
    assert_eq!(fs.sampling_z, 64 + (-62) * 4);
}

#[test]
fn odd_half_width_uses_filler_width_one() {
    // half_width 7: filler width 1, so the effective scale at level 0
    // equals the base scale itself.
    let cm = Clipmap::create(config(7, 1, 3)).unwrap();
    let fs = cm.update(10, -10)[0];
    assert_eq!((fs.snap_x, fs.snap_z), (3, -4));
    assert_eq!((fs.origin_x, fs.origin_z), (9, -12));
    // offset0 = 1 - 7 = -6, offset1 = 7.
    assert_eq!((fs.parity_x, fs.parity_z), (1, 0));
    assert_eq!((fs.trim_x, fs.trim_z), (7, -6));
}

#[test]
fn extreme_targets_stay_in_contract() {
    let cm = Clipmap::create(config(64, 6, 2)).unwrap();
    for &(x, z) in &[
        (MAX_TARGET_ABS, MAX_TARGET_ABS),
        (-MAX_TARGET_ABS, -MAX_TARGET_ABS),
        (MAX_TARGET_ABS, -MAX_TARGET_ABS),
    ] {
        for fs in &cm.update(x, z) {
            assert!(fs.parity_x == 0 || fs.parity_x == 1);
            assert!(fs.parity_z == 0 || fs.parity_z == 1);
            // the snapped origin sits at most one pitch below the target
            assert!(fs.origin_x <= x && fs.origin_z <= z);
        }
    }
}

#[test]
fn level_scales_double_per_level() {
    let c = config(64, 6, 2);
    let cm = Clipmap::create(c).unwrap();
    let mut expected = 2i64;
    for level in 0..6u32 {
        assert_eq!(level_scale(&cm.config, level), expected);
        expected *= 2;
    }
}
