//! Tests of the scene graph: assembly, transform composition and traversal.

use nalgebra_glm as glm;

use heliscene::math::{Vec3, FIXED_ONE};
use heliscene::render::{build_scene, Geometry};
use heliscene::scene::{AttachError, SceneGraph};
use heliscene::transform::Prim;
use heliscene::traverse::{render_scene, traverse, DrawCall};

fn fixed(v: i64) -> f32 {
    v as f32 / 1000.0
}

fn fixed_vec(v: &Vec3) -> glm::Vec3 {
    glm::vec3(fixed(v.x), fixed(v.y), fixed(v.z))
}

/// Folds a factor list into a concrete matrix by multiplying the factors in
/// order, exactly as the process driving the GPU would.
fn fold_matrix(world: &[Prim]) -> glm::Mat4 {
    let mut m: glm::Mat4 = glm::identity();
    for p in world {
        m = match p {
            Prim::Translate(v) => glm::translate(&m, &fixed_vec(v)),
            Prim::RotateX(a) => glm::rotate_x(&m, fixed(*a)),
            Prim::RotateY(a) => glm::rotate_y(&m, fixed(*a)),
            Prim::RotateZ(a) => glm::rotate_z(&m, fixed(*a)),
            Prim::Scale(v) => glm::scale(&m, &fixed_vec(v)),
        };
    }
    m
}

fn assert_mat_eq(a: &glm::Mat4, b: &glm::Mat4) {
    for (x, y) in a.iter().zip(b.iter()) {
        assert!((x - y).abs() < 1e-4, "matrices differ: {:?} vs {:?}", a, b);
    }
}

/// Applies one node's local factors to `m` by hand, in the fixed pivoted
/// order: T(position) * T(reference_point) * Rx * Ry * Rz * T(-reference_point) * S(scale).
fn hand_local(m: &glm::Mat4, pos: &Vec3, rot: &Vec3, scale: &Vec3, pivot: &Vec3) -> glm::Mat4 {
    let mut r = glm::translate(m, &fixed_vec(pos));
    r = glm::translate(&r, &fixed_vec(pivot));
    r = glm::rotate_x(&r, fixed(rot.x));
    r = glm::rotate_y(&r, fixed(rot.y));
    r = glm::rotate_z(&r, fixed(rot.z));
    r = glm::translate(&r, &-fixed_vec(pivot));
    glm::scale(&r, &fixed_vec(scale))
}

fn chain_node(
    g: &mut SceneGraph,
    vao: u32,
    pos: Vec3,
    rot: Vec3,
    scale: Vec3,
    pivot: Vec3,
) -> usize {
    let idx = g.new_node_with_geometry(vao, 3);
    g.set_position(idx, pos);
    g.set_rotation(idx, rot);
    g.set_reference_point(idx, pivot);
    g.nodes[idx].scale = scale;
    idx
}

#[test]
fn world_transform_matches_hand_computed_product() {
    let mut g = SceneGraph::new();
    let p0 = Vec3 { x: 1_000, y: 2_000, z: 3_000 };
    let r0 = Vec3 { x: 500, y: 0, z: -250 };
    let s0 = Vec3 { x: 2_000, y: 2_000, z: 2_000 };
    let c0 = Vec3 { x: 100, y: 0, z: 0 };
    let p1 = Vec3 { x: -4_000, y: 0, z: 500 };
    let r1 = Vec3 { x: 0, y: 1_200, z: 0 };
    let s1 = Vec3 { x: 1_000, y: 500, z: 1_000 };
    let c1 = Vec3 { x: 0, y: 300, z: -200 };
    let p2 = Vec3 { x: 0, y: 7_500, z: 0 };
    let r2 = Vec3 { x: -300, y: 400, z: 2_000 };
    let s2 = Vec3 { x: 1_500, y: 1_000, z: 750 };
    let c2 = Vec3 { x: 50, y: 60, z: 70 };
    let a = chain_node(&mut g, 1, p0, r0, s0, c0);
    let b = chain_node(&mut g, 2, p1, r1, s1, c1);
    let c = chain_node(&mut g, 3, p2, r2, s2, c2);
    assert!(g.add_child(a, b).is_ok());
    assert!(g.add_child(b, c).is_ok());

    let draws = render_scene(&g);
    assert_eq!(draws.len(), 3);

    let identity: glm::Mat4 = glm::identity();
    let w0 = hand_local(&identity, &p0, &r0, &s0, &c0);
    let w1 = hand_local(&w0, &p1, &r1, &s1, &c1);
    let w2 = hand_local(&w1, &p2, &r2, &s2, &c2);
    assert_mat_eq(&fold_matrix(&draws[0].world), &w0);
    assert_mat_eq(&fold_matrix(&draws[1].world), &w1);
    assert_mat_eq(&fold_matrix(&draws[2].world), &w2);
}

#[test]
fn traversal_visits_children_in_insertion_order() {
    let mut g = SceneGraph::new();
    let root = g.new_node();
    let c1 = g.new_node_with_geometry(10, 1);
    let c2 = g.new_node_with_geometry(20, 1);
    let c3 = g.new_node_with_geometry(30, 1);
    assert!(g.add_child(root, c1).is_ok());
    assert!(g.add_child(root, c2).is_ok());
    assert!(g.add_child(root, c3).is_ok());
    let draws = render_scene(&g);
    let order: Vec<u32> = draws.iter().map(|d| d.vao_id).collect();
    assert_eq!(order, vec![10, 20, 30]);
}

#[test]
fn insertion_order_kept_when_middle_child_has_geometry_removed() {
    let mut g = SceneGraph::new();
    let root = g.new_node();
    let c1 = g.new_node_with_geometry(10, 1);
    let c2 = g.new_node_with_geometry(20, 0);
    let c3 = g.new_node_with_geometry(30, 1);
    assert!(g.add_child(root, c1).is_ok());
    assert!(g.add_child(root, c2).is_ok());
    assert!(g.add_child(root, c3).is_ok());
    let draws = render_scene(&g);
    let order: Vec<u32> = draws.iter().map(|d| d.vao_id).collect();
    assert_eq!(order, vec![10, 30]);
}

#[test]
fn pivot_only_node_draws_nothing_but_child_inherits_transform() {
    let mut g = SceneGraph::new();
    let pivot = g.new_node();
    let offset = Vec3 { x: 5_000, y: 0, z: 0 };
    g.set_position(pivot, offset);
    let child = g.new_node_with_geometry(7, 9);
    let child_pos = Vec3 { x: 0, y: 1_000, z: 0 };
    g.set_position(child, child_pos);
    assert!(g.add_child(pivot, child).is_ok());

    let draws = render_scene(&g);
    assert_eq!(draws.len(), 1);
    assert_eq!(draws[0].vao_id, 7);
    assert_eq!(draws[0].index_count, 9);

    let zero = Vec3 { x: 0, y: 0, z: 0 };
    let one = Vec3 { x: FIXED_ONE, y: FIXED_ONE, z: FIXED_ONE };
    let expected = vec![
        Prim::Translate(offset),
        Prim::Translate(zero),
        Prim::RotateX(0),
        Prim::RotateY(0),
        Prim::RotateZ(0),
        Prim::Translate(zero),
        Prim::Scale(one),
        Prim::Translate(child_pos),
        Prim::Translate(zero),
        Prim::RotateX(0),
        Prim::RotateY(0),
        Prim::RotateZ(0),
        Prim::Translate(zero),
        Prim::Scale(one),
    ];
    assert_eq!(draws[0].world, expected);
}

#[test]
fn single_bare_root_draws_nothing() {
    let mut g = SceneGraph::new();
    let _root = g.new_node();
    let draws = render_scene(&g);
    assert_eq!(draws.len(), 0);
}

#[test]
fn deep_chain_traverses_without_failure() {
    let mut g = SceneGraph::new();
    let mut prev = g.new_node_with_geometry(1, 1);
    for k in 1..500usize {
        let next = g.new_node_with_geometry((k + 1) as u32, 1);
        assert!(g.add_child(prev, next).is_ok());
        prev = next;
    }
    let draws = render_scene(&g);
    assert_eq!(draws.len(), 500);
    assert_eq!(draws[499].world.len(), 7 * 500);
    assert_eq!(draws[499].vao_id, 500);
}

#[test]
fn traverse_appends_after_existing_draws() {
    let mut g = SceneGraph::new();
    let _n = g.new_node_with_geometry(42, 6);
    let inherited: Vec<Prim> = Vec::new();
    let mut out: Vec<DrawCall> = Vec::new();
    traverse(&g, 0, &inherited, &mut out);
    traverse(&g, 0, &inherited, &mut out);
    assert_eq!(out.len(), 2);
    assert_eq!(out[0].vao_id, 42);
    assert_eq!(out[1].vao_id, 42);
}

#[test]
fn add_child_rejects_missing_node() {
    let mut g = SceneGraph::new();
    let root = g.new_node();
    assert_eq!(g.add_child(root, 5), Err(AttachError::NoSuchNode));
    assert_eq!(g.add_child(9, root), Err(AttachError::NoSuchNode));
}

#[test]
fn add_child_rejects_order_violation() {
    let mut g = SceneGraph::new();
    let a = g.new_node();
    let b = g.new_node();
    assert_eq!(g.add_child(b, a), Err(AttachError::NotAfterParent));
    assert_eq!(g.add_child(a, a), Err(AttachError::NotAfterParent));
}

#[test]
fn add_child_rejects_second_parent() {
    let mut g = SceneGraph::new();
    let a = g.new_node();
    let b = g.new_node();
    let c = g.new_node();
    assert!(g.add_child(a, c).is_ok());
    assert_eq!(g.add_child(b, c), Err(AttachError::AlreadyAttached));
}

#[test]
fn assembled_scene_has_expected_shape() {
    let s = build_scene(
        Geometry { vao_id: 1, index_count: 300 },
        Geometry { vao_id: 2, index_count: 120 },
        Geometry { vao_id: 3, index_count: 30 },
        Geometry { vao_id: 4, index_count: 60 },
        Geometry { vao_id: 5, index_count: 45 },
    );
    assert_eq!(s.graph.nodes.len(), 6);
    assert_eq!(s.graph.nodes[s.root].children, vec![s.terrain]);
    assert_eq!(s.graph.nodes[s.terrain].children, vec![s.body]);
    assert_eq!(s.graph.nodes[s.body].children, vec![s.door, s.main_rotor, s.tail_rotor]);
    assert!(s.graph.nodes[s.door].children.is_empty());
    assert!(s.graph.nodes[s.main_rotor].children.is_empty());
    assert!(s.graph.nodes[s.tail_rotor].children.is_empty());
    assert_eq!(s.graph.nodes[s.terrain].vao_id, 1);
    assert_eq!(s.graph.nodes[s.body].index_count, 120);
    assert_eq!(s.graph.nodes[s.tail_rotor].vao_id, 5);
    assert_eq!(
        s.graph.nodes[s.tail_rotor].reference_point,
        Vec3 { x: 350, y: 2_300, z: 10_400 }
    );
    // the whole scene draws its five geometries depth-first, pre-order
    let draws = render_scene(&s.graph);
    let order: Vec<u32> = draws.iter().map(|d| d.vao_id).collect();
    assert_eq!(order, vec![1, 2, 3, 4, 5]);
}
