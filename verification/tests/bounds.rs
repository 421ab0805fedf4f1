use clipmap::bounds::vertical_bounds;
use clipmap::{Clipmap, ClipmapConfig};

fn config(levels: u32, min: i64, max: i64) -> ClipmapConfig {
    ClipmapConfig {
        half_width: 64,
        levels,
        base_scale_num: 2,
        texel_size_num: 1,
        target: 1,
        color: 2,
        heightmap: 3,
        horizon: 4,
        horizon_coeffs: 8,
        min_height_num: min,
        max_height_num: max,
        wireframe: true,
    }
}

#[test]
fn bound_numerators_and_shift() {
    // bound_center_y(L) = (max + min) / 2^(L+1) and bound_half_extent_y(L)
    // = (max - min) / 2^(L+1), held exactly as numerator and exponent.
    let c = config(6, -300, 500);
    for level in 0..6u32 {
        let b = vertical_bounds(&c, level);
        assert_eq!(b.center_num, 200);
        assert_eq!(b.half_extent_num, 800);
        assert_eq!(b.shift, level + 1);
    }
}

#[test]
fn half_extent_strictly_halves_per_level() {
    let c = config(6, -1000, 1000);
    let mut previous: Option<f64> = None;
    for level in 0..6u32 {
        let b = vertical_bounds(&c, level);
        let value = b.half_extent_num as f64 / (1u64 << b.shift) as f64;
        if let Some(p) = previous {
            assert_eq!(2.0 * value, p);
            assert!(value < p);
        }
        previous = Some(value);
    }
}

#[test]
fn uniform_payload_carries_frame_state() {
    let c = config(2, -7, 9);
    let cm = Clipmap::create(c).unwrap();
    let frames = cm.update(130, 65);
    let u = cm.tile_uniform(&frames[0]);
    assert_eq!(u.level, 0);
    assert_eq!((u.min_height_num, u.max_height_num), (-7, 9));
    assert_eq!(u.texel_size_num, 1);
    assert_eq!((u.sampling_x, u.sampling_z), (frames[0].sampling_x, frames[0].sampling_z));
    assert!(u.wireframe);
    assert_eq!((u.color, u.heightmap, u.horizon, u.horizon_coeffs), (2, 3, 4, 8));
}
