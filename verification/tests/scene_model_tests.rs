use osrs_scene::controller::InputEvent;
use osrs_scene::fixed::Vec3Milli;
use osrs_scene::model::{Model, ModelError, PrimitiveRecord};
use osrs_scene::scene::{Extent, State};
use osrs_scene::texture::{TextureData, TextureError};
use osrs_scene::world::World;

fn v(x: i64, y: i64, z: i64) -> Vec3Milli {
    Vec3Milli { x, y, z }
}

fn empty_actor_model() -> Model {
    Model::from_primitives(vec![], vec![]).unwrap()
}

fn ready_state() -> State {
    let world = World::flat(64);
    let (state, _geometry) = State::new(800, 600, world, empty_actor_model(), v(0, 0, 0));
    state
}

#[test]
fn from_primitives_substitutes_fallback_material() {
    let m = empty_actor_model();
    assert_eq!(m.meshes.len(), 0);
    assert_eq!(m.materials.len(), 1);
    assert_eq!(m.materials[0].name, "fallback_material");
}

#[test]
fn from_primitives_keeps_records_in_order() {
    let records = vec![
        PrimitiveRecord {
            name: "body".to_string(),
            vertex_count: 24,
            index_count: 36,
            material_index: Some(1),
        },
        PrimitiveRecord {
            name: "head".to_string(),
            vertex_count: 8,
            index_count: 12,
            material_index: None,
        },
    ];
    let names = vec!["skin".to_string(), "cloth".to_string()];
    let m = Model::from_primitives(records, names).unwrap();
    assert_eq!(m.materials.len(), 2);
    assert_eq!(m.materials[0].name, "skin");
    assert_eq!(m.meshes.len(), 2);
    assert_eq!(m.meshes[0].name, "body");
    assert_eq!(m.meshes[0].material_index, 1);
    assert_eq!(m.meshes[0].num_vertices, 24);
    assert_eq!(m.meshes[0].num_indices, 36);
    // a primitive without a material falls back to the first material
    assert_eq!(m.meshes[1].material_index, 0);
}

#[test]
fn from_primitives_rejects_out_of_range_material() {
    let records = vec![PrimitiveRecord {
        name: "body".to_string(),
        vertex_count: 3,
        index_count: 3,
        material_index: Some(2),
    }];
    let names = vec!["skin".to_string()];
    let r = Model::from_primitives(records, names);
    assert!(matches!(r, Err(ModelError::MaterialIndexOutOfRange)));
}

#[test]
fn from_heightmap_builds_one_mesh_one_material() {
    let world = World::flat(4);
    let (model, geometry) = Model::from_heightmap(&world);
    assert_eq!(model.meshes.len(), 1);
    assert_eq!(model.materials.len(), 1);
    assert_eq!(model.meshes[0].name, "landscape");
    assert_eq!(model.materials[0].name, "stone");
    assert_eq!(model.meshes[0].num_vertices, 4 * 9);
    assert_eq!(model.meshes[0].num_indices, 6 * 9);
    assert_eq!(geometry.vertices.len(), 36);
    assert_eq!(geometry.indices.len(), 54);
}

#[test]
fn resize_with_zero_dimension_changes_nothing() {
    let mut state = ready_state();
    let before_size = state.size();
    let before_proj = state.projection;
    let before_depth = state.depth_extent;
    state.resize(0, 480);
    state.resize(640, 0);
    state.resize(0, 0);
    assert_eq!(state.size(), before_size);
    assert_eq!(state.projection, before_proj);
    assert_eq!(state.depth_extent, before_depth);
}

#[test]
fn resize_updates_surface_projection_and_depth() {
    let mut state = ready_state();
    state.resize(1024, 768);
    assert_eq!(state.size(), Extent { width: 1024, height: 768 });
    assert_eq!(state.projection.width, 1024);
    assert_eq!(state.projection.height, 768);
    assert_eq!(state.depth_extent, Extent { width: 1024, height: 768 });
}

#[test]
fn update_grounds_the_actor_on_the_terrain() {
    let world = World::new(2, vec![1_500, 1_500, 1_500, 1_500]);
    let (mut state, _geo) = State::new(800, 600, world, empty_actor_model(), v(500, 0, 500));
    state.update();
    // (0.5, 0.5) rounds to cell (1, 1)
    assert_eq!(state.player.position, v(500, 1_500, 500));
    // the camera follows the actor
    assert_eq!(state.camera.focus_point, v(500, 1_500, 500));
}

#[test]
fn input_reaches_the_controller() {
    let mut state = ready_state();
    assert!(state.input(&InputEvent::ScrollLines { y_milli: 1_000 }));
    assert!(!state.input(&InputEvent::Other));
    assert_eq!(state.camera_controller.zoom_delta_milli, -1_000);
    state.mouse_motion(250, -125);
    assert_eq!(state.camera_controller.mouse_delta_x_milli, 250);
    assert_eq!(state.camera_controller.mouse_delta_y_milli, -125);
}

#[test]
fn click_to_walk_end_to_end() {
    // 64 by 64 flat world, actor at (32, 0, 32); a click resolving to world
    // point (10, 0, 40) walks the actor exactly there and clears the target
    let world = World::flat(64);
    let (mut state, _geo) = State::new(800, 600, world, empty_actor_model(), v(32_000, 0, 32_000));
    // a ray straight down through (10, 0, 40)
    state.set_player_destination(v(10_000, 5_000, 40_000), v(0, -1_000, 0));
    assert_eq!(state.player.target_position, Some(v(10_000, 0, 40_000)));
    let mut ticks = 0;
    while state.player.target_position.is_some() {
        state.update();
        ticks += 1;
        assert!(ticks < 31_000, "actor failed to arrive");
    }
    assert_eq!(state.player.position, v(10_000, 0, 40_000));
    assert!(state.player.target_position.is_none());
}

#[test]
fn missed_pick_keeps_previous_target() {
    let mut state = ready_state();
    state.set_player_destination(v(0, 5_000, 0), v(0, -1_000, 0));
    assert_eq!(state.player.target_position, Some(v(0, 0, 0)));
    // a shallow ray misses and leaves the previous destination in place
    state.set_player_destination(v(0, 5_000, 0), v(1_000, 0, 0));
    assert_eq!(state.player.target_position, Some(v(0, 0, 0)));
}

#[test]
fn pick_beyond_coordinate_range_is_rejected() {
    // a near-horizontal ray from very high up meets the plane absurdly far
    // away; such a destination is out of the simulation's coordinate range
    let mut state = ready_state();
    state.set_player_destination(v(0, 500_000_000, 0), v(2_000, -2, 0));
    assert!(state.player.target_position.is_none());
}

#[test]
fn render_plan_draws_terrain_then_actor() {
    let world = World::flat(4);
    let actor = Model::from_primitives(
        vec![PrimitiveRecord {
            name: "cube".to_string(),
            vertex_count: 24,
            index_count: 36,
            material_index: None,
        }],
        vec![],
    )
    .unwrap();
    let (state, _geo) = State::new(800, 600, world, actor, v(0, 0, 0));
    let plan = state.render_plan();
    assert_eq!(plan.len(), 2);
    assert!(!plan[0].actor);
    assert_eq!(plan[0].mesh_index, 0);
    assert_eq!(plan[0].material_index, 0);
    assert_eq!(plan[0].num_indices, 6 * 9);
    assert_eq!(plan[0].instance_count, 1);
    assert!(plan[1].actor);
    assert_eq!(plan[1].mesh_index, 0);
    assert_eq!(plan[1].num_indices, 36);
    assert_eq!(plan[1].instance_count, 1);
}

#[test]
fn texture_data_checks_buffer_length() {
    let ok = TextureData::new(2, 2, vec![0u8; 16]);
    assert!(ok.is_ok());
    let bad = TextureData::new(2, 2, vec![0u8; 15]);
    assert!(matches!(bad, Err(TextureError::SizeMismatch)));
}

#[test]
fn fallback_texture_is_one_white_pixel() {
    let td = TextureData::fallback_white();
    assert_eq!(td.width, 1);
    assert_eq!(td.height, 1);
    assert_eq!(td.pixels, vec![255, 255, 255, 255]);
}

#[test]
fn garbage_bytes_fail_to_decode() {
    let r = TextureData::from_bytes(&vec![1, 2, 3, 4, 5]);
    assert!(matches!(r, Err(TextureError::Decode)));
}

#[test]
fn hand_built_checker_png_decodes() {
    // an 8-by-8 two-tone check, PNG-encoded by hand
    let stone_png: Vec<u8> = vec![
        137, 80, 78, 71, 13, 10, 26, 10, 0, 0, 0, 13, 73, 72, 68, 82, 0, 0, 0, 8, 0, 0, 0, 8, 8,
        6, 0, 0, 0, 196, 15, 190, 139, 0, 0, 0, 27, 73, 68, 65, 84, 120, 218, 99, 232, 233, 233,
        249, 159, 151, 151, 247, 31, 23, 205, 128, 79, 18, 68, 51, 12, 11, 19, 0, 11, 7, 157, 129,
        33, 113, 127, 113, 0, 0, 0, 0, 73, 69, 78, 68, 174, 66, 96, 130,
    ];
    let td = TextureData::from_bytes(&stone_png).unwrap();
    assert_eq!(td.width, 8);
    assert_eq!(td.height, 8);
    assert_eq!(td.pixels.len(), 8 * 8 * 4);
    assert_eq!(&td.pixels[0..4], &[140, 140, 140, 255]);
    assert_eq!(&td.pixels[4..8], &[110, 110, 110, 255]);
}

#[test]
fn png_bytes_decode_to_their_pixels() {
    // encode a 2-by-1 image with distinct pixels, then decode it through the
    // library; the result must be the decoded pixels, not the input bytes
    let raw: Vec<u8> = vec![255, 0, 0, 255, 0, 0, 255, 255];
    let img = image::RgbaImage::from_raw(2, 1, raw.clone()).unwrap();
    let mut png_bytes: Vec<u8> = Vec::new();
    img.write_to(&mut std::io::Cursor::new(&mut png_bytes), image::ImageFormat::Png)
        .unwrap();
    let td = TextureData::from_bytes(&png_bytes).unwrap();
    assert_eq!(td.width, 2);
    assert_eq!(td.height, 1);
    assert_eq!(td.pixels, raw);
    assert_ne!(td.pixels, png_bytes);
}
