//! The render loop's verified core: the camera, the assembled helicopter
//! scene, the per-frame animation step, and the frame step that turns the
//! drained shared state into a list of draw calls.
//!
//! The loop around this module owns the graphics context: each iteration it
//! drains the window-size cell, the pressed-key set and the mouse-delta
//! accumulator, each under its own guard (skipping any step whose guard
//! fails), evaluates the external heading animation at the elapsed time,
//! calls [`frame_step`], and then folds each draw call's factor list into a
//! matrix and submits it.

use vstd::prelude::*;

use crate::math::{clamp_i64, sat_add, sat_mul, sat_sub, Vec3, FIXED_ONE};
use crate::scene::{fresh_node, SceneGraph, SceneNode};
use crate::shared::{KEY_A, KEY_D, KEY_LSHIFT, KEY_S, KEY_SPACE, KEY_W};
use crate::transform::Prim;
use crate::traverse::{draws_view, render_node, render_scene, DrawCall};

verus! {

/// Camera translation rate: units per second, which is also fixed-point
/// thousandths of a unit per millisecond.
pub const CAMERA_SPEED: i64 = 10;

/// Rotor spin rate: radians per second, which is also fixed-point
/// thousandths of a radian per millisecond.
pub const ROTOR_SPIN_RATE: i64 = 10;

/// The body's fixed altitude, in fixed-point units.
pub const BODY_ALTITUDE: i64 = 50_000;

/// Initial logical window width.
pub const INITIAL_SCREEN_W: u32 = 800;

/// Initial logical window height.
pub const INITIAL_SCREEN_H: u32 = 600;

/// An opaque reference to GPU-resident geometry: the buffer handle and the
/// number of drawable indexed elements. Produced by the external buffer
/// uploader at scene-assembly time.
#[derive(Clone, Copy, PartialEq, Eq, Structural, Debug)]
pub struct Geometry {
    /// GPU buffer handle; zero means none.
    pub vao_id: u32,
    /// Number of drawable indexed elements.
    pub index_count: i32,
}

/// The camera position, in fixed-point units. The camera is
/// translation-only: it always looks along a fixed forward direction.
#[derive(Clone, Copy, PartialEq, Eq, Structural, Debug)]
pub struct Camera {
    /// Sideways position.
    pub x: i64,
    /// Height.
    pub y: i64,
    /// Depth position.
    pub z: i64,
}

/// The external heading animation's output at one instant: where the body
/// is and how it banks, all fixed-point.
#[derive(Clone, Copy, PartialEq, Eq, Structural, Debug)]
pub struct Heading {
    /// Sideways position of the body.
    pub x: i64,
    /// Depth position of the body.
    pub z: i64,
    /// Bank about the X axis.
    pub roll: i64,
    /// Bank about the Y axis.
    pub pitch: i64,
    /// Bank about the Z axis.
    pub yaw: i64,
}

/// The assembled scene: the node arena and the indices of the named nodes.
#[derive(Debug)]
pub struct HelicopterScene {
    /// The node arena.
    pub graph: SceneGraph,
    /// The root node: no geometry, a pivot for everything.
    pub root: usize,
    /// The terrain, child of the root.
    pub terrain: usize,
    /// The helicopter body, child of the terrain.
    pub body: usize,
    /// The door, child of the body.
    pub door: usize,
    /// The main rotor, child of the body; spins about its local Y axis.
    pub main_rotor: usize,
    /// The tail rotor, child of the body; spins about its local X axis
    /// around an off-centre pivot.
    pub tail_rotor: usize,
}

impl HelicopterScene {
    /// Well-formedness: the arena is well formed and the named indices are
    /// the six nodes of the assembled scene.
    pub open spec fn wf(self) -> bool {
        &&& self.graph.wf()
        &&& self.graph.nodes@.len() == 6
        &&& self.root == 0usize
        &&& self.terrain == 1usize
        &&& self.body == 2usize
        &&& self.door == 3usize
        &&& self.main_rotor == 4usize
        &&& self.tail_rotor == 5usize
    }
}

/// The tail rotor's pivot: the point on the tail boom that its spin axis
/// passes through, in fixed-point units.
pub open spec fn tail_rotor_pivot() -> Vec3 {
    Vec3 { x: 350, y: 2_300, z: 10_400 }
}

/// Whether `n` carries the identity transform: zero position, rotation and
/// pivot, a scale of one.
pub open spec fn identity_transform(n: SceneNode) -> bool {
    &&& n.position == (Vec3 { x: 0, y: 0, z: 0 })
    &&& n.rotation == (Vec3 { x: 0, y: 0, z: 0 })
    &&& n.scale == (Vec3 { x: FIXED_ONE, y: FIXED_ONE, z: FIXED_ONE })
    &&& n.reference_point == (Vec3 { x: 0, y: 0, z: 0 })
}

/// The shape that `build_scene` establishes: six nodes — root, terrain,
/// body, door, main rotor, tail rotor — with the root owning the terrain,
/// the terrain owning the body, and the body owning door, main rotor and
/// tail rotor in that order; every transform starts as the identity except
/// the tail rotor's pivot.
pub open spec fn assembled(
    s: HelicopterScene,
    terrain: Geometry,
    body: Geometry,
    door: Geometry,
    main_rotor: Geometry,
    tail_rotor: Geometry,
) -> bool {
    let n = s.graph.nodes@;
    &&& s.wf()
    &&& identity_transform(n[0]) && n[0].vao_id == 0 && n[0].index_count == 0
    &&& n[0].children@ == seq![1usize]
    &&& identity_transform(n[1]) && n[1].vao_id == terrain.vao_id && n[1].index_count
        == terrain.index_count
    &&& n[1].children@ == seq![2usize]
    &&& identity_transform(n[2]) && n[2].vao_id == body.vao_id && n[2].index_count
        == body.index_count
    &&& n[2].children@ == seq![3usize, 4usize, 5usize]
    &&& identity_transform(n[3]) && n[3].vao_id == door.vao_id && n[3].index_count
        == door.index_count
    &&& n[3].children@ == Seq::<usize>::empty()
    &&& identity_transform(n[4]) && n[4].vao_id == main_rotor.vao_id && n[4].index_count
        == main_rotor.index_count
    &&& n[4].children@ == Seq::<usize>::empty()
    &&& n[5].position == (Vec3 { x: 0, y: 0, z: 0 })
    &&& n[5].rotation == (Vec3 { x: 0, y: 0, z: 0 })
    &&& n[5].scale == (Vec3 { x: FIXED_ONE, y: FIXED_ONE, z: FIXED_ONE })
    &&& n[5].reference_point == tail_rotor_pivot()
    &&& n[5].vao_id == tail_rotor.vao_id && n[5].index_count == tail_rotor.index_count
    &&& n[5].children@ == Seq::<usize>::empty()
}

/// Assembles the static scene once, before the render loop starts: terrain
/// under the root, the helicopter body on the terrain, and door, main rotor
/// and tail rotor on the body, in that insertion order. The tail rotor gets
/// its off-centre pivot; every other transform starts as the identity.
pub fn build_scene(
    terrain: Geometry,
    body: Geometry,
    door: Geometry,
    main_rotor: Geometry,
    tail_rotor: Geometry,
) -> (s: HelicopterScene)
    ensures
        assembled(s, terrain, body, door, main_rotor, tail_rotor),
{
    let mut g = SceneGraph::new();
    let root = g.new_node();
    let ghost g0 = g;
    let terrain_idx = g.new_node_with_geometry(terrain.vao_id, terrain.index_count);
    let ghost g1 = g;
    let body_idx = g.new_node_with_geometry(body.vao_id, body.index_count);
    let ghost g2 = g;
    let door_idx = g.new_node_with_geometry(door.vao_id, door.index_count);
    let ghost g3 = g;
    let main_idx = g.new_node_with_geometry(main_rotor.vao_id, main_rotor.index_count);
    let ghost g4 = g;
    let tail_idx = g.new_node_with_geometry(tail_rotor.vao_id, tail_rotor.index_count);
    proof {
        assert forall|t: int| 0 <= t < 5 implies g.nodes@[t] == g4.nodes@[t] by {
            assert(g.nodes@.subrange(0, 5)[t] == g.nodes@[t]);
        }
        assert forall|t: int| 0 <= t < 4 implies g4.nodes@[t] == g3.nodes@[t] by {
            assert(g4.nodes@.subrange(0, 4)[t] == g4.nodes@[t]);
        }
        assert forall|t: int| 0 <= t < 3 implies g3.nodes@[t] == g2.nodes@[t] by {
            assert(g3.nodes@.subrange(0, 3)[t] == g3.nodes@[t]);
        }
        assert forall|t: int| 0 <= t < 2 implies g2.nodes@[t] == g1.nodes@[t] by {
            assert(g2.nodes@.subrange(0, 2)[t] == g2.nodes@[t]);
        }
        assert forall|t: int| 0 <= t < 1 implies g1.nodes@[t] == g0.nodes@[t] by {
            assert(g1.nodes@.subrange(0, 1)[t] == g1.nodes@[t]);
        }
        assert(fresh_node(g.nodes@[0], 0, 0));
        assert(fresh_node(g.nodes@[1], terrain.vao_id, terrain.index_count));
        assert(fresh_node(g.nodes@[2], body.vao_id, body.index_count));
        assert(fresh_node(g.nodes@[3], door.vao_id, door.index_count));
        assert(fresh_node(g.nodes@[4], main_rotor.vao_id, main_rotor.index_count));
        assert(fresh_node(g.nodes@[5], tail_rotor.vao_id, tail_rotor.index_count));
    }
    let ghost g5 = g;
    g.set_reference_point(tail_idx, Vec3 { x: 350, y: 2_300, z: 10_400 });
    let ghost g6 = g;
    proof {
        assert forall|i: int| 0 <= i < g.nodes@.len()
            implies g.nodes@[i].children@.len() == 0 by {
            if i == 5 {
                assert(g.nodes@[5].children@ == g5.nodes@[5].children@);
            } else {
                assert(g.nodes@[i] == g5.nodes@[i]);
            }
        }
        assert forall|i: int| 0 <= i < g6.nodes@.len()
            implies !g6.nodes@[i].children@.contains(3usize) by {}
    }
    let r1 = g.add_child(body_idx, door_idx);
    proof {
        assert(!g6.attached(3usize));
        assert(r1 is Ok);
    }
    let ghost g7 = g;
    let r2 = g.add_child(body_idx, main_idx);
    proof {
        assert forall|i: int| 0 <= i < g7.nodes@.len()
            implies !g7.nodes@[i].children@.contains(4usize) by {
            if i == 2 {
                assert(g7.nodes@[2].children@ == g6.nodes@[2].children@.push(3usize));
                assert(g6.nodes@[2].children@.len() == 0);
                assert(g7.nodes@[2].children@.len() == 1);
                assert(g7.nodes@[2].children@[0] == 3usize);
            } else {
                assert(g7.nodes@[i].children@.len() == 0);
            }
        }
        assert(!g7.attached(4usize));
        assert(r2 is Ok);
    }
    let ghost g8 = g;
    let r3 = g.add_child(body_idx, tail_idx);
    proof {
        assert forall|i: int| 0 <= i < g8.nodes@.len()
            implies !g8.nodes@[i].children@.contains(5usize) by {
            if i == 2 {
                assert(g8.nodes@[2].children@ == g7.nodes@[2].children@.push(4usize));
                assert(g8.nodes@[2].children@.len() == 2);
                assert(g8.nodes@[2].children@[0] == 3usize);
                assert(g8.nodes@[2].children@[1] == 4usize);
            } else {
                assert(g8.nodes@[i].children@.len() == 0);
            }
        }
        assert(!g8.attached(5usize));
        assert(r3 is Ok);
    }
    let ghost g9 = g;
    let r4 = g.add_child(terrain_idx, body_idx);
    proof {
        assert forall|i: int| 0 <= i < g9.nodes@.len()
            implies !g9.nodes@[i].children@.contains(2usize) by {
            if i == 2 {
                assert(g9.nodes@[2].children@[0] == 3usize);
                assert(g9.nodes@[2].children@[1] == 4usize);
                assert(g9.nodes@[2].children@[2] == 5usize);
            } else {
                assert(g9.nodes@[i].children@.len() == 0);
            }
        }
        assert(!g9.attached(2usize));
        assert(r4 is Ok);
    }
    let ghost g10 = g;
    let r5 = g.add_child(root, terrain_idx);
    proof {
        assert forall|i: int| 0 <= i < g10.nodes@.len()
            implies !g10.nodes@[i].children@.contains(1usize) by {
            if i == 2 {
                assert(g10.nodes@[2].children@[0] == 3usize);
                assert(g10.nodes@[2].children@[1] == 4usize);
                assert(g10.nodes@[2].children@[2] == 5usize);
            } else if i == 1 {
                assert(g10.nodes@[1].children@.len() == 1);
                assert(g10.nodes@[1].children@[0] == 2usize);
            } else {
                assert(g10.nodes@[i].children@.len() == 0);
            }
        }
        assert(!g10.attached(1usize));
        assert(r5 is Ok);
    }
    let s = HelicopterScene {
        graph: g,
        root,
        terrain: terrain_idx,
        body: body_idx,
        door: door_idx,
        main_rotor: main_idx,
        tail_rotor: tail_idx,
    };
    proof {
        assert(s.graph.nodes@[0].children@ =~= seq![1usize]);
        assert(s.graph.nodes@[1].children@ =~= seq![2usize]);
        assert(s.graph.nodes@[2].children@ =~= seq![3usize, 4usize, 5usize]);
        assert(s.graph.nodes@[3].children@ =~= Seq::<usize>::empty());
        assert(s.graph.nodes@[4].children@ =~= Seq::<usize>::empty());
        assert(s.graph.nodes@[5].children@ =~= Seq::<usize>::empty());
        assert(assembled(s, terrain, body, door, main_rotor, tail_rotor));
    }
    s
}

/// The rotor angle at `elapsed_ms`: the fixed spin rate times the elapsed
/// time, saturating.
pub open spec fn rotor_angle(elapsed_ms: i64) -> i64 {
    clamp_i64(ROTOR_SPIN_RATE * elapsed_ms) as i64
}

/// The camera displacement for one held key over `dt_ms`: the fixed
/// translation rate times the frame time, saturating.
pub open spec fn camera_step(dt_ms: i64) -> i64 {
    clamp_i64(CAMERA_SPEED * dt_ms) as i64
}

/// The camera after one held key's contribution: a fixed-rate translation
/// on that key's axis, saturating; an unrecognized key moves nothing.
pub open spec fn move_camera_spec(c: Camera, code: u32, step: i64) -> Camera {
    if code == KEY_A {
        Camera { x: clamp_i64(c.x - step) as i64, ..c }
    } else if code == KEY_D {
        Camera { x: clamp_i64(c.x + step) as i64, ..c }
    } else if code == KEY_W {
        Camera { z: clamp_i64(c.z - step) as i64, ..c }
    } else if code == KEY_S {
        Camera { z: clamp_i64(c.z + step) as i64, ..c }
    } else if code == KEY_SPACE {
        Camera { y: clamp_i64(c.y + step) as i64, ..c }
    } else if code == KEY_LSHIFT {
        Camera { y: clamp_i64(c.y - step) as i64, ..c }
    } else {
        c
    }
}

/// The camera after every held key's contribution, applied in held order;
/// contributions on one axis compose additively.
pub open spec fn apply_keys_spec(c: Camera, codes: Seq<u32>, step: i64) -> Camera
    decreases codes.len(),
{
    if codes.len() == 0 {
        c
    } else {
        apply_keys_spec(move_camera_spec(c, codes[0], step), codes.drop_first(), step)
    }
}

/// Applies every held key's fixed-rate translation to the camera for one
/// frame of `dt_ms` milliseconds.
pub fn apply_pressed_keys(camera: &mut Camera, codes: &Vec<u32>, dt_ms: i64)
    requires
        dt_ms >= 0,
    ensures
        *final(camera) == apply_keys_spec(*old(camera), codes@, camera_step(dt_ms)),
{
    let step = sat_mul(CAMERA_SPEED, dt_ms);
    proof {
        assert(codes@.skip(0) =~= codes@);
    }
    let mut j: usize = 0;
    while j < codes.len()
        invariant
            j <= codes@.len(),
            step == camera_step(dt_ms),
            apply_keys_spec(*camera, codes@.skip(j as int), step) == apply_keys_spec(
                *old(camera),
                codes@,
                step,
            ),
        decreases codes@.len() - j,
    {
        let ghost pre = *camera;
        let code = codes[j];
        if code == KEY_A {
            camera.x = sat_sub(camera.x, step);
        } else if code == KEY_D {
            camera.x = sat_add(camera.x, step);
        } else if code == KEY_W {
            camera.z = sat_sub(camera.z, step);
        } else if code == KEY_S {
            camera.z = sat_add(camera.z, step);
        } else if code == KEY_SPACE {
            camera.y = sat_add(camera.y, step);
        } else if code == KEY_LSHIFT {
            camera.y = sat_sub(camera.y, step);
        }
        proof {
            assert(*camera == move_camera_spec(pre, code, step));
            assert(codes@.skip(j as int)[0] == code);
            assert(codes@.skip(j as int).drop_first() =~= codes@.skip(j + 1 as int));
            assert(apply_keys_spec(pre, codes@.skip(j as int), step) == apply_keys_spec(
                *camera,
                codes@.skip(j + 1 as int),
                step,
            ));
        }
        j += 1;
    }
    proof {
        assert(codes@.skip(codes@.len() as int) =~= Seq::<u32>::empty());
    }
}

/// Whether `n` is the scene `o` advanced to `elapsed_ms` under `heading`:
/// the main rotor's Y rotation and the tail rotor's X rotation stand at the
/// spin angle for `elapsed_ms`, the body stands where the heading puts it
/// at the fixed altitude with roll, pitch and yaw on rotation X, Y and Z,
/// and every other node — and every other field — is untouched.
pub open spec fn advanced(
    o: HelicopterScene,
    n: HelicopterScene,
    elapsed_ms: i64,
    heading: Heading,
) -> bool {
    let on = o.graph.nodes@;
    let nn = n.graph.nodes@;
    &&& n.wf()
    &&& nn.len() == on.len()
    &&& forall|k: int| 0 <= k < on.len() && k != 2 && k != 4 && k != 5 ==> nn[k] == on[k]
    &&& nn[4] == (SceneNode {
        rotation: (Vec3 { x: on[4].rotation.x, y: rotor_angle(elapsed_ms), z: on[4].rotation.z }),
        ..on[4]
    })
    &&& nn[5] == (SceneNode {
        rotation: (Vec3 { x: rotor_angle(elapsed_ms), y: on[5].rotation.y, z: on[5].rotation.z }),
        ..on[5]
    })
    &&& nn[2] == (SceneNode {
        position: (Vec3 { x: heading.x, y: BODY_ALTITUDE, z: heading.z }),
        rotation: (Vec3 { x: heading.roll, y: heading.pitch, z: heading.yaw }),
        ..on[2]
    })
}

/// Advances the animated nodes to `elapsed_ms`: spins the main rotor about
/// its local Y axis and the tail rotor about its local X axis at the fixed
/// rate, and places the body where the external heading animation says,
/// at the fixed altitude.
pub fn advance_animation(scene: &mut HelicopterScene, elapsed_ms: i64, heading: Heading)
    requires
        old(scene).wf(),
        elapsed_ms >= 0,
    ensures
        advanced(*old(scene), *final(scene), elapsed_ms, heading),
{
    let angle = sat_mul(ROTOR_SPIN_RATE, elapsed_ms);
    let main = scene.main_rotor;
    let tail = scene.tail_rotor;
    let body = scene.body;
    let r_main = scene.graph.rotation_of(main);
    scene.graph.set_rotation(main, Vec3 { x: r_main.x, y: angle, z: r_main.z });
    let r_tail = scene.graph.rotation_of(tail);
    scene.graph.set_rotation(tail, Vec3 { x: angle, y: r_tail.y, z: r_tail.z });
    scene.graph.set_position(body, Vec3 { x: heading.x, y: BODY_ALTITUDE, z: heading.z });
    scene.graph.set_rotation(body, Vec3 { x: heading.roll, y: heading.pitch, z: heading.yaw });
}

/// The render thread's own state between frames: the camera and the
/// viewport whose aspect ratio the projection uses.
#[derive(Clone, Copy, PartialEq, Eq, Structural, Debug)]
pub struct RenderState {
    /// The camera position.
    pub camera: Camera,
    /// Width of the viewport the projection is built for.
    pub viewport_width: u32,
    /// Height of the viewport the projection is built for.
    pub viewport_height: u32,
}

impl RenderState {
    /// The state at the first frame: the fixed starting camera, the initial
    /// logical window size.
    pub fn initial() -> (r: RenderState)
        ensures
            r == (RenderState {
                camera: Camera { x: 0, y: 50_000, z: 200_000 },
                viewport_width: INITIAL_SCREEN_W,
                viewport_height: INITIAL_SCREEN_H,
            }),
    {
        RenderState {
            camera: Camera { x: 0, y: 50_000, z: 200_000 },
            viewport_width: INITIAL_SCREEN_W,
            viewport_height: INITIAL_SCREEN_H,
        }
    }
}

/// Everything one frame hands to the graphics plumbing: the resize to
/// apply, if one was drained; the viewport whose aspect ratio the
/// projection must use; the camera the view matrix must look from; and the
/// draw calls in submission order.
#[derive(Debug)]
pub struct Frame {
    /// The size drained from the window cell this frame, to be applied to
    /// the surface and the viewport; nothing if no resize was pending.
    pub resized: Option<(u32, u32)>,
    /// Width for this frame's projection.
    pub viewport_width: u32,
    /// Height for this frame's projection.
    pub viewport_height: u32,
    /// Camera for this frame's view matrix.
    pub camera: Camera,
    /// The draw calls, in submission order.
    pub draws: Vec<DrawCall>,
}

/// One iteration of the render loop, over the values drained from the
/// shared cells: applies a drained resize to the viewport, applies the held
/// keys to the camera at the fixed rate, advances the animated nodes to
/// `elapsed_ms`, and traverses the scene from the root with the identity
/// inherited transform. The caller has already drained each cell under its
/// own guard — skipping any whose guard failed — and has drained and
/// discarded the mouse accumulator, which the camera deliberately ignores.
pub fn frame_step(
    state: &mut RenderState,
    scene: &mut HelicopterScene,
    resize: Option<(u32, u32)>,
    pressed: &Vec<u32>,
    elapsed_ms: i64,
    dt_ms: i64,
    heading: Heading,
) -> (frame: Frame)
    requires
        old(scene).wf(),
        elapsed_ms >= 0,
        dt_ms >= 0,
    ensures
        final(scene).wf(),
        advanced(*old(scene), *final(scene), elapsed_ms, heading),
        resize matches Some(p) ==> final(state).viewport_width == p.0
            && final(state).viewport_height == p.1,
        resize is None ==> final(state).viewport_width == old(state).viewport_width
            && final(state).viewport_height == old(state).viewport_height,
        final(state).camera == apply_keys_spec(
            old(state).camera,
            pressed@,
            camera_step(dt_ms),
        ),
        frame.resized == resize,
        frame.viewport_width == final(state).viewport_width,
        frame.viewport_height == final(state).viewport_height,
        frame.camera == final(state).camera,
        draws_view(frame.draws@) == render_node(
            final(scene).graph.nodes@,
            0,
            Seq::<Prim>::empty(),
        ),
{
    match resize {
        Some((w, h)) => {
            state.viewport_width = w;
            state.viewport_height = h;
        },
        None => {},
    }
    apply_pressed_keys(&mut state.camera, pressed, dt_ms);
    advance_animation(scene, elapsed_ms, heading);
    let draws = render_scene(&scene.graph);
    Frame {
        resized: resize,
        viewport_width: state.viewport_width,
        viewport_height: state.viewport_height,
        camera: state.camera,
        draws,
    }
}

} // verus!
