use std::collections::HashSet;

use clipmap::{ConfigError, TileMesh};
use clipmap::factory::build_tile_meshes;

fn distinct_coords(mesh: &TileMesh) -> HashSet<(i64, i64)> {
    mesh.verts.iter().map(|v| (v.x, v.z)).collect()
}

fn touched_coords(mesh: &TileMesh) -> HashSet<(i64, i64)> {
    let mut touched = HashSet::new();
    for &idx in &mesh.indices {
        let v = mesh.verts[idx as usize];
        touched.insert((v.x, v.z));
    }
    touched
}

fn doubled_area(mesh: &TileMesh) -> i64 {
    let mut total: i64 = 0;
    for tri in mesh.indices.chunks(3) {
        let a = mesh.verts[tri[0] as usize];
        let b = mesh.verts[tri[1] as usize];
        let c = mesh.verts[tri[2] as usize];
        let cross = (b.x - a.x) * (c.z - a.z) - (b.z - a.z) * (c.x - a.x);
        total += cross.abs();
    }
    total
}

fn check_welded(mesh: &TileMesh) {
    // Vertex count equals the number of distinct lattice coordinates the
    // triangles touch: no duplicates, no unused vertices.
    let distinct = distinct_coords(mesh);
    assert_eq!(distinct.len(), mesh.verts.len());
    assert_eq!(touched_coords(mesh), distinct);
    for &idx in &mesh.indices {
        assert!((idx as usize) < mesh.verts.len());
    }
    assert_eq!(mesh.indices.len() % 3, 0);
}

#[test]
fn welding_even_half_width() {
    let set = build_tile_meshes(64).unwrap();
    for mesh in [&set.square, &set.filler, &set.center, &set.trim, &set.stitch] {
        check_welded(mesh);
    }
}

#[test]
fn welding_odd_half_width() {
    let set = build_tile_meshes(7).unwrap();
    for mesh in [&set.square, &set.filler, &set.center, &set.trim, &set.stitch] {
        check_welded(mesh);
    }
}

#[test]
fn cell_counts_even_half_width() {
    // half_width 64: filler width 2, square width 31, builder width 128.
    let set = build_tile_meshes(64).unwrap();
    // square: 31 * 31 cells, two triangles each, corners form a 32 * 32
    // lattice.
    assert_eq!(set.square.indices.len(), 6 * 31 * 31);
    assert_eq!(set.square.verts.len(), 32 * 32);
    // filler: 2 * f * (w - f) = 2 * 2 * 62 cells.
    assert_eq!(set.filler.indices.len(), 6 * 248);
    // center: 2 * f * (b - f) - f^2 = 2 * 2 * 126 - 4 cells.
    assert_eq!(set.center.indices.len(), 6 * 500);
    // trim: 2 * f * b - f^2 = 2 * 2 * 128 - 4 cells.
    assert_eq!(set.trim.indices.len(), 6 * 508);
    // stitch: 4 triangles per step, one step per half_width.
    assert_eq!(set.stitch.indices.len(), 3 * 4 * 64);
}

#[test]
fn cell_counts_odd_half_width() {
    // half_width 7: filler width 1, square width 3, builder width 14.
    let set = build_tile_meshes(7).unwrap();
    assert_eq!(set.square.indices.len(), 6 * 9);
    assert_eq!(set.square.verts.len(), 16);
    assert_eq!(set.filler.indices.len(), 6 * 12);
    assert_eq!(set.center.indices.len(), 6 * 25);
    assert_eq!(set.trim.indices.len(), 6 * 27);
    assert_eq!(set.stitch.indices.len(), 3 * 4 * 7);
}

#[test]
fn ring_area_accounting() {
    // Square and filler placements cover the ring exactly; square and
    // center placements cover the finest level's full square. The
    // stitch contributes only zero-area seam triangles.
    for &w in &[64i64, 7] {
        let set = build_tile_meshes(w as u32).unwrap();
        let f = 2 - w % 2;
        let b = 2 * w;
        let ring = (b - f) * (b - f) - w * w;
        assert_eq!(doubled_area(&set.stitch), 0);
        assert_eq!(
            12 * doubled_area(&set.square) + doubled_area(&set.filler),
            2 * ring
        );
        assert_eq!(
            16 * doubled_area(&set.square) + doubled_area(&set.center),
            2 * (b - f) * (b - f)
        );
    }
}

#[test]
fn rejects_half_widths_without_square_tile() {
    assert_eq!(build_tile_meshes(0).err(), Some(ConfigError::HalfWidthZero));
    assert_eq!(build_tile_meshes(1).err(), Some(ConfigError::SquareWidthNotPositive));
    assert_eq!(build_tile_meshes(2).err(), Some(ConfigError::SquareWidthNotPositive));
    assert!(build_tile_meshes(3).is_ok());
}

#[test]
fn cached_extents_match_vertices() {
    let set = build_tile_meshes(64).unwrap();
    // square corners span [0, 31]^2; trim and stitch span the full
    // builder lattice [0, 128].
    assert_eq!(
        (set.square_bounds.min_x, set.square_bounds.max_x, set.square_bounds.min_z, set.square_bounds.max_z),
        (0, 31, 0, 31)
    );
    assert_eq!((set.trim_bounds.min_x, set.trim_bounds.max_x), (0, 128));
    assert_eq!((set.stitch_bounds.min_x, set.stitch_bounds.max_x), (0, 128));
    assert_eq!((set.stitch_bounds.min_z, set.stitch_bounds.max_z), (0, 128));
    for (mesh, bounds) in [
        (&set.square, &set.square_bounds),
        (&set.filler, &set.filler_bounds),
        (&set.center, &set.center_bounds),
        (&set.trim, &set.trim_bounds),
        (&set.stitch, &set.stitch_bounds),
    ] {
        assert!(mesh.verts.iter().all(|v| bounds.min_x <= v.x && v.x <= bounds.max_x));
        assert!(mesh.verts.iter().all(|v| bounds.min_z <= v.z && v.z <= bounds.max_z));
        assert!(mesh.verts.iter().any(|v| v.x == bounds.min_x));
        assert!(mesh.verts.iter().any(|v| v.x == bounds.max_x));
        assert!(mesh.verts.iter().any(|v| v.z == bounds.min_z));
        assert!(mesh.verts.iter().any(|v| v.z == bounds.max_z));
    }
}

#[test]
fn wireframe_edges_derived_from_triangles() {
    let set = build_tile_meshes(7).unwrap();
    for mesh in [&set.square, &set.filler, &set.center, &set.trim, &set.stitch] {
        let edges = mesh.edge_indices();
        assert_eq!(edges.len(), 2 * mesh.indices.len());
        for (t, tri) in mesh.indices.chunks(3).enumerate() {
            assert_eq!(
                &edges[6 * t..6 * t + 6],
                &[tri[0], tri[1], tri[1], tri[2], tri[2], tri[0]]
            );
        }
    }
}
