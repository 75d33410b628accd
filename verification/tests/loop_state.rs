//! Tests of the shared input/lifecycle cells, the dispatcher decisions and
//! the render loop's per-frame step.

use heliscene::dispatch::{on_key_event, should_exit_for_health};
use heliscene::math::{sat_add, sat_mul, sat_sub, Vec3};
use heliscene::render::{
    advance_animation, apply_pressed_keys, build_scene, frame_step, Camera, Geometry, Heading,
    HelicopterScene, RenderState, BODY_ALTITUDE,
};
use heliscene::transform::Prim;

use heliscene::shared::{
    HealthFlag, MouseDelta, PressedKeys, WindowSize, KEY_A, KEY_D, KEY_ESCAPE, KEY_LSHIFT, KEY_Q,
    KEY_S, KEY_SPACE, KEY_W,
};

fn test_scene() -> HelicopterScene {
    build_scene(
        Geometry { vao_id: 1, index_count: 300 },
        Geometry { vao_id: 2, index_count: 120 },
        Geometry { vao_id: 3, index_count: 30 },
        Geometry { vao_id: 4, index_count: 60 },
        Geometry { vao_id: 5, index_count: 45 },
    )
}

fn still_heading() -> Heading {
    Heading { x: 0, z: 0, roll: 0, pitch: 0, yaw: 0 }
}

#[test]
fn saturating_arithmetic_is_exact_in_range_and_clamps_outside() {
    assert_eq!(sat_add(3, 4), 7);
    assert_eq!(sat_add(i64::MAX, 1), i64::MAX);
    assert_eq!(sat_sub(i64::MIN, 1), i64::MIN);
    assert_eq!(sat_mul(-7, 6), -42);
    assert_eq!(sat_mul(i64::MAX, 2), i64::MAX);
    assert_eq!(sat_mul(i64::MIN, 2), i64::MIN);
}

#[test]
fn mouse_delta_accumulates_then_drains_to_zero() {
    let mut m = MouseDelta::new();
    m.accumulate(3, 4);
    m.accumulate(1, -2);
    assert_eq!(m.drain(), (4, 2));
    assert_eq!(m.drain(), (0, 0));
}

#[test]
fn window_size_hands_out_a_resize_exactly_once() {
    let mut w = WindowSize::new(800, 600);
    assert_eq!(w.drain(), None);
    w.record_resize(640, 480);
    assert_eq!(w.drain(), Some((640, 480)));
    assert_eq!(w.drain(), None);
}

#[test]
fn health_flag_lowers_once_and_never_recovers() {
    let mut h = HealthFlag::new();
    assert!(h.is_healthy());
    assert!(!should_exit_for_health(&h));
    h.observe_termination(false);
    assert!(!h.is_healthy());
    assert!(should_exit_for_health(&h));
    assert!(!h.is_healthy());
    h.observe_termination(true);
    assert!(!h.is_healthy());
    assert!(should_exit_for_health(&h));
}

#[test]
fn normal_termination_keeps_the_health_flag_raised() {
    let mut h = HealthFlag::new();
    h.observe_termination(true);
    assert!(h.is_healthy());
}

#[test]
fn pressing_and_releasing_keys_is_idempotent_and_ordered() {
    let mut k = PressedKeys::new();
    k.press(KEY_W);
    k.press(KEY_A);
    k.press(KEY_W);
    assert_eq!(k.codes(), vec![KEY_W, KEY_A]);
    assert!(k.contains(KEY_A));
    k.release(KEY_W);
    assert_eq!(k.codes(), vec![KEY_A]);
    k.release(KEY_W);
    assert_eq!(k.codes(), vec![KEY_A]);
    assert!(!k.contains(KEY_W));
}

#[test]
fn escape_and_q_request_exit_on_any_transition() {
    let mut k = PressedKeys::new();
    assert!(on_key_event(&mut k, KEY_ESCAPE, true));
    assert_eq!(k.codes(), vec![KEY_ESCAPE]);
    assert!(on_key_event(&mut k, KEY_ESCAPE, false));
    assert_eq!(k.codes(), Vec::<u32>::new());
    assert!(on_key_event(&mut k, KEY_Q, true));
    assert!(!on_key_event(&mut k, KEY_W, true));
    assert_eq!(k.codes(), vec![KEY_Q, KEY_W]);
}

#[test]
fn held_keys_translate_the_camera_at_the_fixed_rate() {
    let mut c = Camera { x: 0, y: 0, z: 0 };
    let codes = vec![KEY_D, KEY_SPACE, KEY_W];
    apply_pressed_keys(&mut c, &codes, 100);
    // 10 thousandths of a unit per millisecond for 100 ms
    assert_eq!(c, Camera { x: 1_000, y: 1_000, z: -1_000 });
    let codes = vec![KEY_A, KEY_LSHIFT, KEY_S];
    apply_pressed_keys(&mut c, &codes, 50);
    assert_eq!(c, Camera { x: 500, y: 500, z: -500 });
}

#[test]
fn animation_spins_rotors_and_places_the_body() {
    let mut s = test_scene();
    let heading = Heading { x: 12_000, z: -8_000, roll: 150, pitch: 250, yaw: -350 };
    advance_animation(&mut s, 2_000, heading);
    let main = &s.graph.nodes[s.main_rotor];
    assert_eq!(main.rotation, Vec3 { x: 0, y: 20_000, z: 0 });
    let tail = &s.graph.nodes[s.tail_rotor];
    assert_eq!(tail.rotation, Vec3 { x: 20_000, y: 0, z: 0 });
    let body = &s.graph.nodes[s.body];
    assert_eq!(body.position, Vec3 { x: 12_000, y: BODY_ALTITUDE, z: -8_000 });
    assert_eq!(body.rotation, Vec3 { x: 150, y: 250, z: -350 });
    // the terrain and the door are untouched
    assert_eq!(s.graph.nodes[s.terrain].rotation, Vec3 { x: 0, y: 0, z: 0 });
    assert_eq!(s.graph.nodes[s.door].position, Vec3 { x: 0, y: 0, z: 0 });
}

#[test]
fn one_iteration_observes_a_resize_and_later_projections_keep_the_aspect() {
    let mut window = WindowSize::new(800, 600);
    window.record_resize(640, 480);

    let mut state = RenderState::initial();
    let mut scene = test_scene();
    let no_keys: Vec<u32> = Vec::new();

    let drained = window.drain();
    assert_eq!(drained, Some((640, 480)));
    let frame = frame_step(&mut state, &mut scene, drained, &no_keys, 0, 0, still_heading());
    assert_eq!(frame.resized, Some((640, 480)));
    assert_eq!((frame.viewport_width, frame.viewport_height), (640, 480));

    // the pending flag is now down: the next iteration sees no resize but
    // still projects with the new aspect ratio
    let drained = window.drain();
    assert_eq!(drained, None);
    let frame = frame_step(&mut state, &mut scene, drained, &no_keys, 16, 16, still_heading());
    assert_eq!(frame.resized, None);
    assert_eq!((frame.viewport_width, frame.viewport_height), (640, 480));
    let aspect = frame.viewport_width as f32 / frame.viewport_height as f32;
    assert_eq!(aspect, 640.0 / 480.0);
}

#[test]
fn frame_step_emits_the_scene_draws_and_moves_the_camera() {
    let mut state = RenderState::initial();
    let mut scene = test_scene();
    let codes = vec![KEY_S];
    let frame = frame_step(&mut state, &mut scene, None, &codes, 1_000, 200, still_heading());
    assert_eq!(frame.camera, Camera { x: 0, y: 50_000, z: 202_000 });
    assert_eq!(frame.camera, state.camera);
    let order: Vec<u32> = frame.draws.iter().map(|d| d.vao_id).collect();
    assert_eq!(order, vec![1, 2, 3, 4, 5]);
    assert_eq!(state.viewport_width, 800);
    assert_eq!(state.viewport_height, 600);
    // the body's draw places it at the heading position and altitude: its
    // own local factors start after root, terrain (7 factors each)
    let body_draw = &frame.draws[1];
    assert_eq!(body_draw.world.len(), 21);
    assert_eq!(body_draw.world[14], Prim::Translate(Vec3 { x: 0, y: 50_000, z: 0 }));
    // the main rotor's draw carries the spun rotation: its local factors
    // start after root, terrain, body, and the Y rotation is the fourth
    let rotor_draw = &frame.draws[3];
    assert_eq!(rotor_draw.world.len(), 28);
    assert_eq!(rotor_draw.world[24], Prim::RotateY(10_000));
}
