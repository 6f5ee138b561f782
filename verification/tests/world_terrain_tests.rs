use osrs_scene::terrain::build_terrain_geometry;
use osrs_scene::world::World;

#[test]
fn flat_world_is_zero_everywhere() {
    let w = World::flat(8);
    assert_eq!(w.size, 8);
    assert_eq!(w.heightmap.len(), 64);
    assert_eq!(w.get_height(3, 5), 0);
}

#[test]
fn get_height_reads_the_named_cell() {
    // heights stored row-major: index x * size + z
    let w = World::new(2, vec![1_000, 2_000, 3_000, 4_000]);
    assert_eq!(w.get_height(0, 0), 1_000);
    assert_eq!(w.get_height(0, 1), 2_000);
    assert_eq!(w.get_height(1, 0), 3_000);
    assert_eq!(w.get_height(1, 1), 4_000);
}

#[test]
fn get_height_clamps_out_of_range_coordinates() {
    let w = World::new(2, vec![1_000, 2_000, 3_000, 4_000]);
    // both coordinates below the grid clamp to 0
    assert_eq!(w.get_height(-5, -100), w.get_height(0, 0));
    // both above clamp to size - 1
    assert_eq!(w.get_height(50, 7), w.get_height(1, 1));
    // mixed
    assert_eq!(w.get_height(-1, 1), 2_000);
    assert_eq!(w.get_height(10, -10), 3_000);
}

#[test]
fn terrain_counts_for_default_world() {
    // an n-by-n heightmap makes 4 * (n-1)^2 vertices and 6 * (n-1)^2 indices
    let w = World::flat(64);
    let geo = build_terrain_geometry(&w);
    assert_eq!(geo.vertices.len(), 4 * 63 * 63);
    assert_eq!(geo.indices.len(), 6 * 63 * 63);
}

#[test]
fn terrain_counts_for_smallest_grid() {
    let w = World::flat(2);
    let geo = build_terrain_geometry(&w);
    assert_eq!(geo.vertices.len(), 4);
    assert_eq!(geo.indices.len(), 6);
}

#[test]
fn single_quad_layout_is_exact() {
    let w = World::new(2, vec![1_000, 2_000, 3_000, 4_000]);
    let geo = build_terrain_geometry(&w);
    // four corner vertices with unit-square texture coordinates
    let tl = geo.vertices[0];
    assert_eq!((tl.x, tl.y_milli, tl.z, tl.u, tl.v), (0, 1_000, 0, 0, 0));
    let tr = geo.vertices[1];
    assert_eq!((tr.x, tr.y_milli, tr.z, tr.u, tr.v), (1, 3_000, 0, 1, 0));
    let bl = geo.vertices[2];
    assert_eq!((bl.x, bl.y_milli, bl.z, bl.u, bl.v), (0, 2_000, 1, 0, 1));
    let br = geo.vertices[3];
    assert_eq!((br.x, br.y_milli, br.z, br.u, br.v), (1, 4_000, 1, 1, 1));
    // two triangles with uniform winding
    assert_eq!(geo.indices, vec![0, 2, 1, 1, 2, 3]);
}

#[test]
fn quads_are_numbered_x_fastest() {
    let w = World::flat(3);
    let geo = build_terrain_geometry(&w);
    assert_eq!(geo.vertices.len(), 16);
    assert_eq!(geo.indices.len(), 24);
    // quad 1 is cell (x=1, z=0): its top-left vertex sits at index 4
    assert_eq!(geo.vertices[4].x, 1);
    assert_eq!(geo.vertices[4].z, 0);
    // quad 2 is cell (x=0, z=1)
    assert_eq!(geo.vertices[8].x, 0);
    assert_eq!(geo.vertices[8].z, 1);
    // each quad's indices are offset by four
    assert_eq!(&geo.indices[6..12], &[4, 6, 5, 5, 6, 7]);
    // every index addresses an emitted vertex
    for &ix in &geo.indices {
        assert!((ix as usize) < geo.vertices.len());
    }
}
