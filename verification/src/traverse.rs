//! Depth-first, pre-order scene-graph traversal.
//!
//! Traversal composes each node's world transform — the inherited transform
//! followed by the node's local factors — and emits one draw call for every
//! node that carries drawable geometry. A node without drawable geometry
//! emits nothing of its own, but its children are still visited with the
//! correctly inherited transform. Children are visited in insertion order,
//! so the order of the emitted draw calls is the draw submission order.

use vstd::prelude::*;

use crate::scene::{SceneGraph, SceneNode};
use crate::transform::{compose, duplicate, local_transform, Prim};

verus! {

/// One draw call: the geometry to draw and the world transform to draw it
/// with. The model matrix is the world factor list itself; the combined
/// model-view-projection matrix is the view-projection transform composed
/// with it.
#[derive(Debug)]
pub struct DrawCall {
    /// GPU buffer handle of the geometry.
    pub vao_id: u32,
    /// Number of indexed elements to draw.
    pub index_count: i32,
    /// Factor list of the node's world transform.
    pub world: Vec<Prim>,
}

/// The mathematical image of a [`DrawCall`].
pub ghost struct DrawCallView {
    /// GPU buffer handle of the geometry.
    pub vao_id: u32,
    /// Number of indexed elements to draw.
    pub index_count: i32,
    /// Factor list of the node's world transform.
    pub world: Seq<Prim>,
}

impl View for DrawCall {
    type V = DrawCallView;

    open spec fn view(&self) -> DrawCallView {
        DrawCallView { vao_id: self.vao_id, index_count: self.index_count, world: self.world@ }
    }
}

/// The image of a list of draw calls.
pub open spec fn draws_view(s: Seq<DrawCall>) -> Seq<DrawCallView> {
    s.map_values(|d: DrawCall| d@)
}

/// The draw calls that node `n` itself emits under world transform `world`:
/// exactly one if it is drawable, none otherwise.
pub open spec fn own_draws(n: SceneNode, world: Seq<Prim>) -> Seq<DrawCallView> {
    if n.drawable() {
        seq![DrawCallView { vao_id: n.vao_id, index_count: n.index_count, world }]
    } else {
        Seq::empty()
    }
}

/// The draw calls that traversing node `i` emits under the inherited
/// transform `inherited`: the node's own (if drawable), then its children's
/// subtrees in insertion order, every one under the node's world transform.
pub open spec fn render_node(nodes: Seq<SceneNode>, i: int, inherited: Seq<Prim>) -> Seq<
    DrawCallView,
>
    decreases nodes.len() - i, 1int, 0int,
{
    if 0 <= i < nodes.len() {
        let world = inherited + nodes[i].local();
        own_draws(nodes[i], world) + render_children(nodes, i, 0, world)
    } else {
        Seq::empty()
    }
}

/// The draw calls of node `i`'s children from position `j` on, in insertion
/// order, each under the parent's world transform `world`. A child index
/// that does not exceed the parent's or points outside the arena (ruled out
/// by well-formedness) contributes nothing.
pub open spec fn render_children(
    nodes: Seq<SceneNode>,
    i: int,
    j: int,
    world: Seq<Prim>,
) -> Seq<DrawCallView>
    decreases nodes.len() - i, 0int, nodes[i].children@.len() - j,
{
    if 0 <= i < nodes.len() && 0 <= j < nodes[i].children@.len() {
        let c = nodes[i].children@[j] as int;
        let rest = render_children(nodes, i, j + 1, world);
        if i < c < nodes.len() {
            render_node(nodes, c, world) + rest
        } else {
            rest
        }
    } else {
        Seq::empty()
    }
}

/// Appending one draw call appends its image.
pub proof fn lemma_draws_view_push(s: Seq<DrawCall>, d: DrawCall)
    ensures
        draws_view(s.push(d)) == draws_view(s).push(d@),
{
    assert(draws_view(s.push(d)) =~= draws_view(s).push(d@));
}

/// Recursively renders node `i` and its descendants, appending the emitted
/// draw calls to `out` in submission order.
pub fn traverse(g: &SceneGraph, i: usize, inherited: &Vec<Prim>, out: &mut Vec<DrawCall>)
    requires
        g.wf(),
        i < g.nodes@.len(),
    ensures
        draws_view(final(out)@) == draws_view(old(out)@) + render_node(
            g.nodes@,
            i as int,
            inherited@,
        ),
    decreases g.nodes@.len() - i,
{
    let node = &g.nodes[i];
    let local = local_transform(node.position, node.rotation, node.scale, node.reference_point);
    let world = compose(inherited, &local);
    if node.vao_id != 0 && node.index_count > 0 {
        let d = DrawCall {
            vao_id: node.vao_id,
            index_count: node.index_count,
            world: duplicate(&world),
        };
        proof {
            lemma_draws_view_push(out@, d);
        }
        out.push(d);
        proof {
            assert(draws_view(out@) =~= draws_view(old(out)@) + own_draws(
                g.nodes@[i as int],
                world@,
            ));
        }
    } else {
        proof {
            assert(draws_view(out@) =~= draws_view(old(out)@) + own_draws(
                g.nodes@[i as int],
                world@,
            ));
        }
    }
    let mut j: usize = 0;
    while j < node.children.len()
        invariant
            g.wf(),
            i < g.nodes@.len(),
            node == g.nodes@[i as int],
            world@ == inherited@ + g.nodes@[i as int].local(),
            j <= node.children@.len(),
            draws_view(out@) + render_children(g.nodes@, i as int, j as int, world@)
                == draws_view(old(out)@) + render_node(g.nodes@, i as int, inherited@),
        decreases node.children@.len() - j,
    {
        let c = node.children[j];
        proof {
            assert(g.nodes@[i as int].children@[j as int] == c);
            assert(i < c < g.nodes@.len());
        }
        let ghost before = out@;
        traverse(g, c, &world, out);
        proof {
            assert(render_children(g.nodes@, i as int, j as int, world@) == render_node(
                g.nodes@,
                c as int,
                world@,
            ) + render_children(g.nodes@, i as int, j + 1 as int, world@));
            assert(draws_view(out@) + render_children(g.nodes@, i as int, j + 1 as int, world@)
                =~= (draws_view(before) + render_node(g.nodes@, c as int, world@))
                    + render_children(g.nodes@, i as int, j + 1 as int, world@));
            assert((draws_view(before) + render_node(g.nodes@, c as int, world@))
                + render_children(g.nodes@, i as int, j + 1 as int, world@)
                =~= draws_view(before) + render_children(g.nodes@, i as int, j as int, world@));
        }
        j += 1;
    }
    proof {
        assert(render_children(g.nodes@, i as int, j as int, world@)
            == Seq::<DrawCallView>::empty());
        assert(draws_view(out@) + Seq::<DrawCallView>::empty() =~= draws_view(out@));
        assert(draws_view(out@) =~= draws_view(old(out)@) + render_node(
            g.nodes@,
            i as int,
            inherited@,
        ));
    }
}

/// Renders the whole scene from the root with the identity inherited
/// transform, returning the draw calls in submission order.
pub fn render_scene(g: &SceneGraph) -> (out: Vec<DrawCall>)
    requires
        g.wf(),
        g.nodes@.len() > 0,
    ensures
        draws_view(out@) == render_node(g.nodes@, 0, Seq::<Prim>::empty()),
{
    let identity: Vec<Prim> = Vec::new();
    let mut out: Vec<DrawCall> = Vec::new();
    traverse(g, 0, &identity, &mut out);
    proof {
        assert(draws_view(out@) =~= render_node(g.nodes@, 0, Seq::<Prim>::empty()));
    }
    out
}

/// The world transform of a node is the inherited transform — its parent's
/// world transform — composed with the node's own local factors, and that
/// world transform is what the node's own draw call carries and what every
/// child inherits.
pub proof fn lemma_world_composition(nodes: Seq<SceneNode>, i: int, inherited: Seq<Prim>)
    requires
        0 <= i < nodes.len(),
    ensures
        render_node(nodes, i, inherited) == own_draws(nodes[i], inherited + nodes[i].local())
            + render_children(nodes, i, 0, inherited + nodes[i].local()),
        nodes[i].drawable() ==> render_node(nodes, i, inherited)[0] == (DrawCallView {
            vao_id: nodes[i].vao_id,
            index_count: nodes[i].index_count,
            world: inherited + nodes[i].local(),
        }),
{
}

/// Traversal of the children from position `j` on handles the child at `j`
/// first and the rest after it: children are visited in insertion order.
pub proof fn lemma_children_in_insertion_order(
    nodes: Seq<SceneNode>,
    i: int,
    j: int,
    world: Seq<Prim>,
)
    requires
        0 <= i < nodes.len(),
        0 <= j < nodes[i].children@.len(),
        i < nodes[i].children@[j] < nodes.len(),
    ensures
        render_children(nodes, i, j, world) == render_node(
            nodes,
            nodes[i].children@[j] as int,
            world,
        ) + render_children(nodes, i, j + 1, world),
{
}

/// A node with no geometry handle or a non-positive element count emits no
/// draw call of its own: traversing it renders exactly its children, still
/// under the node's correctly composed world transform.
pub proof fn lemma_undrawable_renders_children_only(
    nodes: Seq<SceneNode>,
    i: int,
    inherited: Seq<Prim>,
)
    requires
        0 <= i < nodes.len(),
        !nodes[i].drawable(),
    ensures
        render_node(nodes, i, inherited) == render_children(
            nodes,
            i,
            0,
            inherited + nodes[i].local(),
        ),
{
    assert(own_draws(nodes[i], inherited + nodes[i].local())
        + render_children(nodes, i, 0, inherited + nodes[i].local())
        =~= render_children(nodes, i, 0, inherited + nodes[i].local()));
}

/// A childless node without drawable geometry — in particular a bare root —
/// renders nothing at all.
pub proof fn lemma_bare_node_renders_nothing(nodes: Seq<SceneNode>, i: int, inherited: Seq<Prim>)
    requires
        0 <= i < nodes.len(),
        !nodes[i].drawable(),
        nodes[i].children@.len() == 0,
    ensures
        render_node(nodes, i, inherited) == Seq::<DrawCallView>::empty(),
{
    lemma_undrawable_renders_children_only(nodes, i, inherited);
    assert(render_node(nodes, i, inherited) =~= Seq::<DrawCallView>::empty());
}

/// The inherited transform reaches every draw call of the subtree: each
/// world factor list that rendering node `i` emits — the node's own or any
/// descendant's — starts with `inherited`, factor for factor, followed by
/// at least the seven local factors of the drawn node itself.
pub proof fn lemma_inherited_reaches_every_draw(
    nodes: Seq<SceneNode>,
    i: int,
    inherited: Seq<Prim>,
)
    requires
        0 <= i < nodes.len(),
    ensures
        forall|k: int|
            0 <= k < render_node(nodes, i, inherited).len() ==> {
                let w = (#[trigger] render_node(nodes, i, inherited)[k]).world;
                w.subrange(0, inherited.len() as int) == inherited && w.len() >= inherited.len()
                    + 7
            },
    decreases nodes.len() - i, 1int, 0int,
{
    let world = inherited + nodes[i].local();
    let own = own_draws(nodes[i], world);
    let ch = render_children(nodes, i, 0, world);
    lemma_every_child_draw_extends(nodes, i, 0, world);
    assert(world.subrange(0, inherited.len() as int) =~= inherited);
    assert forall|k: int| 0 <= k < render_node(nodes, i, inherited).len() implies {
        let w = (#[trigger] render_node(nodes, i, inherited)[k]).world;
        w.subrange(0, inherited.len() as int) == inherited && w.len() >= inherited.len() + 7
    } by {
        let s = render_node(nodes, i, inherited);
        assert(s == own + ch);
        if k < own.len() {
            assert(s[k] == own[k]);
            assert(own[k].world == world);
        } else {
            assert(s[k] == ch[k - own.len()]);
            let w = ch[k - own.len()].world;
            assert(w.subrange(0, world.len() as int) == world);
            assert forall|t: int| 0 <= t < inherited.len() implies w[t] == inherited[t] by {
                assert(w.subrange(0, world.len() as int)[t] == w[t]);
                assert(world[t] == inherited[t]);
            }
            assert(w.subrange(0, inherited.len() as int) =~= inherited);
        }
    }
}

/// Every draw call that rendering node `i`'s children from position `j` on
/// emits carries the parent's world transform `world` as a prefix of its
/// factors, followed by at least one node's seven local factors.
pub proof fn lemma_every_child_draw_extends(
    nodes: Seq<SceneNode>,
    i: int,
    j: int,
    world: Seq<Prim>,
)
    requires
        0 <= i < nodes.len(),
    ensures
        forall|k: int|
            0 <= k < render_children(nodes, i, j, world).len() ==> {
                let w = (#[trigger] render_children(nodes, i, j, world)[k]).world;
                w.subrange(0, world.len() as int) == world && w.len() >= world.len() + 7
            },
    decreases nodes.len() - i, 0int, nodes[i].children@.len() - j,
{
    if 0 <= j < nodes[i].children@.len() {
        let c = nodes[i].children@[j] as int;
        let rest = render_children(nodes, i, j + 1, world);
        lemma_every_child_draw_extends(nodes, i, j + 1, world);
        if i < c < nodes.len() {
            lemma_inherited_reaches_every_draw(nodes, c, world);
            let sub = render_node(nodes, c, world);
            assert(render_children(nodes, i, j, world) == sub + rest);
            assert forall|k: int| 0 <= k < render_children(nodes, i, j, world).len() implies {
                let w = (#[trigger] render_children(nodes, i, j, world)[k]).world;
                w.subrange(0, world.len() as int) == world && w.len() >= world.len() + 7
            } by {
                if k < sub.len() {
                    assert(render_children(nodes, i, j, world)[k] == sub[k]);
                } else {
                    assert(render_children(nodes, i, j, world)[k] == rest[k - sub.len()]);
                }
            }
        }
    }
}

/// Two arenas that agree on node `i` and on everything after it render node
/// `i` identically.
pub proof fn lemma_render_agree(n1: Seq<SceneNode>, n2: Seq<SceneNode>, i: int, inherited: Seq<Prim>)
    requires
        n1.len() == n2.len(),
        0 <= i < n1.len(),
        forall|k: int| i <= k < n1.len() ==> n1[k] == n2[k],
    ensures
        render_node(n1, i, inherited) == render_node(n2, i, inherited),
    decreases n1.len() - i, 1int, 0int,
{
    assert(n1[i] == n2[i]);
    lemma_render_children_agree(n1, n2, i, 0, inherited + n1[i].local());
}

/// Two arenas that agree on every node after `i`, and on node `i`'s
/// children list, render node `i`'s children identically — whatever else
/// (geometry, transform) differs at node `i`.
pub proof fn lemma_render_children_agree(
    n1: Seq<SceneNode>,
    n2: Seq<SceneNode>,
    i: int,
    j: int,
    world: Seq<Prim>,
)
    requires
        n1.len() == n2.len(),
        0 <= i < n1.len(),
        forall|k: int| i < k < n1.len() ==> n1[k] == n2[k],
        n1[i].children@ == n2[i].children@,
    ensures
        render_children(n1, i, j, world) == render_children(n2, i, j, world),
    decreases n1.len() - i, 0int, n1[i].children@.len() - j,
{
    if 0 <= j < n1[i].children@.len() {
        let c = n1[i].children@[j] as int;
        lemma_render_children_agree(n1, n2, i, j + 1, world);
        if i < c < n1.len() {
            lemma_render_agree(n1, n2, c, world);
        }
    }
}

/// The children's rendering is independent of the parent's geometry: if two
/// arenas differ at most in node `i`'s geometry handle and element count,
/// node `i`'s children render identically, under the same world transform.
pub proof fn lemma_children_independent_of_geometry(
    n1: Seq<SceneNode>,
    n2: Seq<SceneNode>,
    i: int,
    inherited: Seq<Prim>,
)
    requires
        n1.len() == n2.len(),
        0 <= i < n1.len(),
        forall|k: int| 0 <= k < n1.len() && k != i ==> n1[k] == n2[k],
        n1[i].position == n2[i].position,
        n1[i].rotation == n2[i].rotation,
        n1[i].scale == n2[i].scale,
        n1[i].reference_point == n2[i].reference_point,
        n1[i].children@ == n2[i].children@,
    ensures
        n1[i].local() == n2[i].local(),
        render_children(n1, i, 0, inherited + n1[i].local()) == render_children(
            n2,
            i,
            0,
            inherited + n2[i].local(),
        ),
{
    lemma_render_children_agree(n1, n2, i, 0, inherited + n1[i].local());
}

/// A node's rendering decomposes into its own draw calls — the only part
/// that its geometry fields decide — and a children part that an arena
/// differing from this one solely in that geometry renders identically.
pub proof fn lemma_geometry_only_adds_own_draw(
    n1: Seq<SceneNode>,
    n2: Seq<SceneNode>,
    i: int,
    inherited: Seq<Prim>,
)
    requires
        n1.len() == n2.len(),
        0 <= i < n1.len(),
        forall|k: int| 0 <= k < n1.len() && k != i ==> n1[k] == n2[k],
        n1[i].position == n2[i].position,
        n1[i].rotation == n2[i].rotation,
        n1[i].scale == n2[i].scale,
        n1[i].reference_point == n2[i].reference_point,
        n1[i].children@ == n2[i].children@,
    ensures
        render_node(n1, i, inherited) == own_draws(n1[i], inherited + n1[i].local())
            + render_children(n2, i, 0, inherited + n2[i].local()),
{
    lemma_children_independent_of_geometry(n1, n2, i, inherited);
}

} // verus!
