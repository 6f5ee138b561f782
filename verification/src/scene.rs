//! The scene orchestrator.
//!
//! `State` owns the simulation side of the render state: world, actor,
//! camera, controller and viewport extents. Each frame the host feeds
//! decoded input through `input` / `mouse_motion` / `set_player_destination`,
//! calls `update`, and then renders the draw calls listed by `render_plan`,
//! rebuilding GPU surfaces whenever `resize` changes the extents.

use vstd::prelude::*;
use vstd::arithmetic::div_mod::lemma_div_is_ordered;
use vstd::arithmetic::div_mod::lemma_div_pos_is_pos;
use vstd::arithmetic::div_mod::lemma_fundamental_div_mod;
use vstd::arithmetic::div_mod::lemma_fundamental_div_mod_converse_div;
use vstd::arithmetic::div_mod::lemma_mod_bound;
use crate::camera::OsrsCamera;
use crate::camera::Projection;
use crate::camera::DIST_START_MILLI;
use crate::camera::PITCH_START_MDEG;
use crate::controller::spec_process_events;
use crate::controller::spec_update_camera;
use crate::controller::CameraController;
use crate::controller::InputEvent;
use crate::fixed::lemma_sqrt_floor_bounds;
use crate::fixed::spec_round_milli;
use crate::fixed::sqrt_floor;
use crate::fixed::round_milli_to_unit;
use crate::fixed::vec3_in_range;
use crate::fixed::Vec3Milli;
use crate::fixed::ACC_LIMIT;
use crate::model::Model;
use crate::picking::intersect_ground;
use crate::picking::spec_intersect_ground;
use crate::picking::DIR_LIMIT_MILLI;
use crate::player::dist_sq;
use crate::player::lemma_seek_step_progress;
use crate::player::manhattan;
use crate::player::seek;
use crate::player::spec_seek;
use crate::player::Player;
use crate::terrain::quad_count;
use crate::terrain::spec_terrain_indices;
use crate::terrain::spec_terrain_vertices;
use crate::terrain::TerrainGeometry;
use crate::world::World;

verus! {

/// Milliunits the actor walks per update tick.
pub const SEEK_SPEED_MILLI: i64 = 100;

/// Vertical field of view at scene start, in millidegrees.
pub const FOVY_START_MDEG: i64 = 45_000;

/// Near clip plane at scene start, in milliunits.
pub const ZNEAR_START_MILLI: i64 = 100;

/// Far clip plane at scene start, in milliunits.
pub const ZFAR_START_MILLI: i64 = 100_000;

/// Keyboard yaw speed handed to the controller, in millidegrees per update.
pub const ROT_SPEED_START_MDEG: i64 = 2_000;

/// Mouse orbit sensitivity handed to the controller.
pub const MOUSE_SENS_START_MILLI: i64 = 200;

/// A viewport extent in pixels.
#[derive(Clone, Copy, PartialEq, Eq, Structural, Debug)]
pub struct Extent {
    /// Width in pixels.
    pub width: u32,
    /// Height in pixels.
    pub height: u32,
}

/// One draw of the per-frame render pass, in submission order.
#[derive(Clone, Copy, PartialEq, Eq, Structural, Debug)]
pub struct DrawCall {
    /// Whether the draw uses the actor's instance transform (true) or the
    /// fixed identity terrain transform (false).
    pub actor: bool,
    /// Index of the mesh within its owning model.
    pub mesh_index: usize,
    /// Material slot the draw binds.
    pub material_index: usize,
    /// Number of indices drawn.
    pub num_indices: u32,
    /// Number of instances drawn.
    pub instance_count: u32,
}

/// The simulation side of the render state.
pub struct State {
    /// The terrain height field.
    pub world: World,
    /// The controllable actor.
    pub player: Player,
    /// The orbit camera pose.
    pub camera: OsrsCamera,
    /// The perspective frustum.
    pub projection: Projection,
    /// Pending input state.
    pub camera_controller: CameraController,
    /// Current output-surface extent.
    pub size: Extent,
    /// Extent the depth attachment was created at; tracks `size`.
    pub depth_extent: Extent,
    /// Structure of the terrain model.
    pub terrain_model: Model,
    /// Structure of the actor model.
    pub actor_model: Model,
}

/// The actor after the movement half of an update tick: one seek step toward
/// the target if one is set (clearing it on arrival), then the vertical
/// coordinate grounded on the terrain under the actor.
pub open spec fn spec_update_movement(w: World, p: Player) -> Player {
    let moved = match p.target_position {
        Some(t) => {
            let stepped = spec_seek(p.position, t, SEEK_SPEED_MILLI as int);
            Player {
                position: stepped.0,
                target_position: if stepped.1 {
                    None
                } else {
                    Some(t)
                },
            }
        },
        None => p,
    };
    let gx = spec_round_milli(moved.position.x as int);
    let gz = spec_round_milli(moved.position.z as int);
    Player {
        position: Vec3Milli {
            x: moved.position.x,
            y: w.spec_get_height(gx, gz) as i64,
            z: moved.position.z,
        },
        target_position: moved.target_position,
    }
}

/// The actor after `k` whole update ticks. The movement half of a tick does
/// not depend on the camera or the pending input, so the actor's path is a
/// function of the world and the actor alone.
pub open spec fn player_after_updates(w: World, p: Player, k: nat) -> Player
    decreases k,
{
    if k == 0 {
        p
    } else {
        player_after_updates(w, spec_update_movement(w, p), (k - 1) as nat)
    }
}

/// Every height sample of `w` is zero.
pub open spec fn flat_world(w: World) -> bool {
    forall|i: int| 0 <= i < w.heightmap@.len() ==> #[trigger] w.heightmap@[i] == 0
}

/// On a flat world every height sampling yields zero.
proof fn lemma_flat_height_zero(w: World, x: int, z: int)
    requires
        w.wf(),
        flat_world(w),
    ensures
        w.spec_get_height(x, z) == 0,
{
    let xc = w.grid_clamp(x);
    let zc = w.grid_clamp(z);
    assert(0 <= xc * w.size + zc < w.size * w.size) by (nonlinear_arith)
        requires
            0 <= xc < w.size,
            0 <= zc < w.size,
    ;
}

/// On a flat world, one update tick of an actor walking toward a ground
/// destination is exactly one seek tick: the grounding step changes nothing
/// because the seek step keeps the actor at height zero.
proof fn lemma_flat_update_step(w: World, p: Player, t: Vec3Milli)
    requires
        w.wf(),
        flat_world(w),
        p.position.in_range(),
        p.position.y == 0,
        p.target_position == Some(t),
        t.in_range(),
        t.y == 0,
    ensures
        ({
            let stepped = spec_seek(p.position, t, SEEK_SPEED_MILLI as int);
            &&& spec_update_movement(w, p) == (Player {
                position: stepped.0,
                target_position: if stepped.1 {
                    None
                } else {
                    Some(t)
                },
            })
            &&& stepped.0.y == 0
            &&& stepped.0.in_range()
        }),
{
    let s = SEEK_SPEED_MILLI as int;
    let stepped = spec_seek(p.position, t, s);
    if dist_sq(p.position, t) < s * s {
        assert(stepped.0 == t);
    } else {
        lemma_seek_step_progress(p.position, t, s);
        // the vertical seek step over a zero height difference is zero
        let d2 = dist_sq(p.position, t);
        let n = sqrt_floor(d2 as nat) as int;
        lemma_sqrt_floor_bounds(d2 as nat);
        assert(n >= 1) by (nonlinear_arith)
            requires
                n >= 0,
                d2 >= 4,
                d2 < (n + 1) * (n + 1),
        ;
        let q = (0 * s) / (n as int);
        lemma_fundamental_div_mod(0 * s, n);
        lemma_mod_bound(0 * s, n);
        assert(q == 0) by (nonlinear_arith)
            requires
                0 * s == n * q + (0 * s) % n,
                0 <= (0 * s) % n < n,
        ;
        assert(stepped.0.y == p.position.y);
    }
    let moved = spec_update_movement(w, p);
    lemma_flat_height_zero(
        w,
        spec_round_milli(stepped.0.x as int),
        spec_round_milli(stepped.0.z as int),
    );
    assert(moved.position.y == 0);
}

/// The point-and-click walk, end to end: on a flat world, an actor at
/// height zero whose destination is a ground point reaches that point
/// exactly after boundedly many update ticks, with the destination cleared.
pub proof fn lemma_scene_walk_reaches_destination(w: World, p: Player, t: Vec3Milli)
    requires
        w.wf(),
        flat_world(w),
        p.position.in_range(),
        p.position.y == 0,
        p.target_position == Some(t),
        t.in_range(),
        t.y == 0,
    ensures
        exists|k: nat|
            k <= manhattan(p.position, t) / (SEEK_SPEED_MILLI as int / 2) + 1
                && player_after_updates(w, p, k) == (Player {
                position: t,
                target_position: None::<Vec3Milli>,
            }),
    decreases manhattan(p.position, t),
{
    let s = SEEK_SPEED_MILLI as int;
    let h = s / 2;
    let man = manhattan(p.position, t);
    lemma_div_pos_is_pos(man, h);
    lemma_flat_update_step(w, p, t);
    let stepped = spec_seek(p.position, t, s);
    let p1 = spec_update_movement(w, p);
    if dist_sq(p.position, t) < s * s {
        let k1: nat = 1;
        assert(p1 == (Player { position: t, target_position: None::<Vec3Milli> }));
        assert(player_after_updates(w, p, k1) == player_after_updates(w, p1, 0));
        assert(k1 <= man / h + 1 && player_after_updates(w, p, k1) == (Player {
            position: t,
            target_position: None::<Vec3Milli>,
        }));
    } else {
        lemma_seek_step_progress(p.position, t, s);
        lemma_scene_walk_reaches_destination(w, p1, t);
        let k2 = choose|k2: nat|
            k2 <= manhattan(p1.position, t) / (SEEK_SPEED_MILLI as int / 2) + 1
                && player_after_updates(w, p1, k2) == (Player {
                position: t,
                target_position: None::<Vec3Milli>,
            });
        lemma_fundamental_div_mod(man, h);
        lemma_mod_bound(man, h);
        assert(man - h == (man / h - 1) * h + man % h) by (nonlinear_arith)
            requires
                man == h * (man / h) + man % h,
        ;
        lemma_fundamental_div_mod_converse_div(
            man - h,
            h,
            man / h - 1,
            man % h,
        );
        lemma_div_is_ordered(manhattan(p1.position, t), man - h, h);
        let k3: nat = k2 + 1;
        assert(player_after_updates(w, p, k3) == player_after_updates(w, p1, k2));
        assert(k3 <= man / h + 1 && player_after_updates(w, p, k3) == (Player {
            position: t,
            target_position: None::<Vec3Milli>,
        }));
    }
}

impl State {
    /// Every part is well formed, the projection's aspect tracks the
    /// viewport, and the depth attachment matches the viewport.
    pub open spec fn wf(self) -> bool {
        &&& self.world.wf()
        &&& self.player.position.in_range()
        &&& match self.player.target_position {
            Some(t) => t.in_range(),
            None => true,
        }
        &&& self.camera.pose_wf()
        &&& self.camera_controller.wf()
        &&& self.projection.wf()
        &&& self.projection.width == self.size.width
        &&& self.projection.height == self.size.height
        &&& self.depth_extent == self.size
        &&& self.terrain_model.wf()
        &&& self.actor_model.wf()
    }

    /// Build the scene: triangulate the world into the terrain model, place
    /// the actor at `start`, aim the camera at it from the default pose, and
    /// size the projection and depth extents to the viewport.
    pub fn new(width: u32, height: u32, world: World, actor_model: Model, start: Vec3Milli) -> (r: (
        State,
        TerrainGeometry,
    ))
        requires
            width > 0,
            height > 0,
            world.wf(),
            actor_model.wf(),
            start.in_range(),
        ensures
            r.0.wf(),
            r.0.world == world,
            r.0.player.position == start,
            r.0.player.target_position is None,
            r.0.camera == (OsrsCamera {
                focus_point: start,
                yaw_mdeg: 0,
                pitch_mdeg: PITCH_START_MDEG,
                distance_milli: DIST_START_MILLI,
            }),
            r.0.projection == (Projection {
                width,
                height,
                fovy_mdeg: FOVY_START_MDEG,
                znear_milli: ZNEAR_START_MILLI,
                zfar_milli: ZFAR_START_MILLI,
            }),
            r.0.camera_controller.rotation_speed_mdeg == ROT_SPEED_START_MDEG,
            r.0.camera_controller.mouse_sensitivity_milli == MOUSE_SENS_START_MILLI,
            !r.0.camera_controller.is_left_pressed,
            !r.0.camera_controller.is_right_pressed,
            !r.0.camera_controller.is_middle_mouse_pressed,
            r.0.camera_controller.mouse_delta_x_milli == 0,
            r.0.camera_controller.mouse_delta_y_milli == 0,
            r.0.camera_controller.zoom_delta_milli == 0,
            r.0.size == (Extent { width, height }),
            r.0.depth_extent == (Extent { width, height }),
            r.0.actor_model == actor_model,
            r.1.vertices@ == spec_terrain_vertices(world, quad_count(world)),
            r.1.indices@ == spec_terrain_indices(quad_count(world)),
    {
        let (terrain_model, geometry) = Model::from_heightmap(&world);
        let player = Player::new(start);
        let camera = OsrsCamera::new(start);
        let projection = Projection::new(
            width,
            height,
            FOVY_START_MDEG,
            ZNEAR_START_MILLI,
            ZFAR_START_MILLI,
        );
        let camera_controller = CameraController::new(
            ROT_SPEED_START_MDEG,
            MOUSE_SENS_START_MILLI,
        );
        let state = State {
            world,
            player,
            camera,
            projection,
            camera_controller,
            size: Extent { width, height },
            depth_extent: Extent { width, height },
            terrain_model,
            actor_model,
        };
        (state, geometry)
    }

    /// The current output-surface extent.
    pub fn size(&self) -> (r: Extent)
        ensures
            r == self.size,
    {
        self.size
    }

    /// Reconfigure for a new viewport. A request with a zero dimension is
    /// ignored: the aspect ratio and the depth extent keep their values.
    pub fn resize(&mut self, width: u32, height: u32)
        requires
            old(self).wf(),
        ensures
            final(self).wf(),
            width > 0 && height > 0 ==> *final(self) == (State {
                size: Extent { width, height },
                depth_extent: Extent { width, height },
                projection: (Projection { width, height, ..old(self).projection }),
                ..*old(self)
            }),
            width == 0 || height == 0 ==> *final(self) == *old(self),
    {
        if width > 0 && height > 0 {
            self.size = Extent { width, height };
            self.projection.resize(width, height);
            self.depth_extent = Extent { width, height };
        }
    }

    /// Fold one decoded input signal into the controller.
    pub fn input(&mut self, event: &InputEvent) -> (handled: bool)
        requires
            old(self).wf(),
            match *event {
                InputEvent::ScrollLines { y_milli } => -ACC_LIMIT <= y_milli <= ACC_LIMIT,
                InputEvent::ScrollPixels { y_milli } => -ACC_LIMIT <= y_milli <= ACC_LIMIT,
                _ => true,
            },
        ensures
            final(self).wf(),
            (final(self).camera_controller, handled) == spec_process_events(
                old(self).camera_controller,
                *event,
            ),
            *final(self) == (State { camera_controller: final(self).camera_controller, ..*old(self) }),
    {
        self.camera_controller.process_events(event)
    }

    /// Accumulate relative mouse motion, in millipixels.
    pub fn mouse_motion(&mut self, delta_x_milli: i64, delta_y_milli: i64)
        requires
            old(self).wf(),
        ensures
            final(self).wf(),
            *final(self) == (State { camera_controller: final(self).camera_controller, ..*old(self) }),
            final(self).camera_controller.mouse_delta_x_milli == crate::fixed::spec_clamp(
                old(self).camera_controller.mouse_delta_x_milli + delta_x_milli,
                -ACC_LIMIT as int,
                ACC_LIMIT as int,
            ),
            final(self).camera_controller.mouse_delta_y_milli == crate::fixed::spec_clamp(
                old(self).camera_controller.mouse_delta_y_milli + delta_y_milli,
                -ACC_LIMIT as int,
                ACC_LIMIT as int,
            ),
    {
        self.camera_controller.process_mouse_motion(delta_x_milli, delta_y_milli)
    }

    /// Resolve a click: intersect the unprojected picking ray with the
    /// ground plane and, when it hits an in-range point, make that point the
    /// actor's destination, replacing any previous one. A miss (shallow ray,
    /// plane behind the eye, or a point beyond the coordinate range) leaves
    /// the state unchanged.
    pub fn set_player_destination(&mut self, ray_origin: Vec3Milli, ray_dir: Vec3Milli)
        requires
            old(self).wf(),
            ray_origin.in_range(),
            -DIR_LIMIT_MILLI <= ray_dir.x <= DIR_LIMIT_MILLI,
            -DIR_LIMIT_MILLI <= ray_dir.y <= DIR_LIMIT_MILLI,
            -DIR_LIMIT_MILLI <= ray_dir.z <= DIR_LIMIT_MILLI,
        ensures
            final(self).wf(),
            match spec_intersect_ground(ray_origin, ray_dir) {
                Some(pt) => {
                    if pt.in_range() {
                        *final(self) == (State {
                            player: (Player {
                                position: old(self).player.position,
                                target_position: Some(pt),
                            }),
                            ..*old(self)
                        })
                    } else {
                        *final(self) == *old(self)
                    }
                },
                None => *final(self) == *old(self),
            },
    {
        match intersect_ground(ray_origin, ray_dir) {
            Some(pt) => {
                if vec3_in_range(&pt) {
                    self.player.target_position = Some(pt);
                }
            },
            None => {},
        }
    }

    /// One frame update, in order: advance the actor toward its target,
    /// ground it on the terrain, focus the camera on it, then apply and
    /// clear the pending input deltas.
    pub fn update(&mut self)
        requires
            old(self).wf(),
        ensures
            final(self).wf(),
            ({
                let moved = spec_update_movement(old(self).world, old(self).player);
                let refocused = OsrsCamera { focus_point: moved.position, ..old(self).camera };
                let applied = spec_update_camera(old(self).camera_controller, refocused);
                &&& final(self).player == moved
                &&& final(self).camera_controller == applied.0
                &&& final(self).camera == applied.1
            }),
            *final(self) == (State {
                player: final(self).player,
                camera: final(self).camera,
                camera_controller: final(self).camera_controller,
                ..*old(self)
            }),
    {
        match self.player.target_position {
            Some(target) => {
                let stepped = seek(self.player.position, target, SEEK_SPEED_MILLI);
                self.player.position = stepped.0;
                if stepped.1 {
                    self.player.target_position = None;
                }
            },
            None => {},
        }
        let gx: i64 = round_milli_to_unit(self.player.position.x);
        let gz: i64 = round_milli_to_unit(self.player.position.z);
        let grounded: i64 = self.world.get_height(gx, gz);
        self.player.position.y = grounded;
        self.camera.focus_point = self.player.position;
        self.camera_controller.update_camera(&mut self.camera);
    }

    /// The draw calls of one frame, in submission order: every terrain mesh
    /// under the fixed identity transform, then every actor mesh under the
    /// actor's transform, each binding its mesh's material and drawing one
    /// instance.
    pub fn render_plan(&self) -> (r: Vec<DrawCall>)
        requires
            self.wf(),
        ensures
            r@.len() == self.terrain_model.meshes@.len() + self.actor_model.meshes@.len(),
            forall|i: int|
                0 <= i < self.terrain_model.meshes@.len() ==> #[trigger] r@[i] == (DrawCall {
                    actor: false,
                    mesh_index: i as usize,
                    material_index: self.terrain_model.meshes@[i].material_index,
                    num_indices: self.terrain_model.meshes@[i].num_indices,
                    instance_count: 1,
                }),
            forall|i: int|
                self.terrain_model.meshes@.len() <= i < r@.len() ==> #[trigger] r@[i] == (DrawCall {
                    actor: true,
                    mesh_index: (i - self.terrain_model.meshes@.len()) as usize,
                    material_index: self.actor_model.meshes@[i
                        - self.terrain_model.meshes@.len()].material_index,
                    num_indices: self.actor_model.meshes@[i
                        - self.terrain_model.meshes@.len()].num_indices,
                    instance_count: 1,
                }),
            forall|i: int|
                0 <= i < r@.len() ==> (#[trigger] r@[i]).actor ==> r@[i].material_index
                    < self.actor_model.materials@.len(),
            forall|i: int|
                0 <= i < r@.len() ==> !(#[trigger] r@[i]).actor ==> r@[i].material_index
                    < self.terrain_model.materials@.len(),
    {
        let mut calls: Vec<DrawCall> = Vec::new();
        let terrain_count: usize = self.terrain_model.meshes.len();
        let mut i: usize = 0;
        while i < terrain_count
            invariant
                self.wf(),
                i <= terrain_count,
                terrain_count == self.terrain_model.meshes@.len(),
                calls@.len() == i,
                forall|j: int|
                    0 <= j < i ==> #[trigger] calls@[j] == (DrawCall {
                        actor: false,
                        mesh_index: j as usize,
                        material_index: self.terrain_model.meshes@[j].material_index,
                        num_indices: self.terrain_model.meshes@[j].num_indices,
                        instance_count: 1,
                    }),
            decreases terrain_count - i,
        {
            let mesh = &self.terrain_model.meshes[i];
            calls.push(
                DrawCall {
                    actor: false,
                    mesh_index: i,
                    material_index: mesh.material_index,
                    num_indices: mesh.num_indices,
                    instance_count: 1,
                },
            );
            i = i + 1;
        }
        let actor_count: usize = self.actor_model.meshes.len();
        let mut k: usize = 0;
        while k < actor_count
            invariant
                self.wf(),
                k <= actor_count,
                actor_count == self.actor_model.meshes@.len(),
                terrain_count == self.terrain_model.meshes@.len(),
                calls@.len() == terrain_count + k,
                forall|j: int|
                    0 <= j < terrain_count ==> #[trigger] calls@[j] == (DrawCall {
                        actor: false,
                        mesh_index: j as usize,
                        material_index: self.terrain_model.meshes@[j].material_index,
                        num_indices: self.terrain_model.meshes@[j].num_indices,
                        instance_count: 1,
                    }),
                forall|j: int|
                    terrain_count <= j < terrain_count + k ==> #[trigger] calls@[j] == (DrawCall {
                        actor: true,
                        mesh_index: (j - terrain_count) as usize,
                        material_index: self.actor_model.meshes@[j - terrain_count].material_index,
                        num_indices: self.actor_model.meshes@[j - terrain_count].num_indices,
                        instance_count: 1,
                    }),
            decreases actor_count - k,
        {
            let mesh = &self.actor_model.meshes[k];
            calls.push(
                DrawCall {
                    actor: true,
                    mesh_index: k,
                    material_index: mesh.material_index,
                    num_indices: mesh.num_indices,
                    instance_count: 1,
                },
            );
            k = k + 1;
        }
        calls
    }
}

} // verus!
