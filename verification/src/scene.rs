//! The scene graph: an arena of nodes addressed by stable indices.
//!
//! Each node carries its own transform fields and an optional drawable
//! geometry; a parent stores the indices of its children, in insertion
//! order, which is also the traversal order. No node refers back to its
//! parent. A child's index is always greater than its parent's, so the
//! graph is acyclic by construction and every walk down the tree strictly
//! increases the index.

use vstd::prelude::*;

use crate::math::Vec3;
use crate::math::FIXED_ONE;
use crate::transform::{local_factors, Prim};

verus! {

/// One node of the scene graph.
#[derive(Debug)]
pub struct SceneNode {
    /// Translation relative to the parent's space.
    pub position: Vec3,
    /// Euler angles, one per axis, applied about X, then Y, then Z.
    pub rotation: Vec3,
    /// Componentwise scale.
    pub scale: Vec3,
    /// Pivot held fixed during rotation and scaling.
    pub reference_point: Vec3,
    /// GPU buffer handle of the node's geometry; zero means none.
    pub vao_id: u32,
    /// Number of drawable indexed elements of the geometry.
    pub index_count: i32,
    /// Indices of the child nodes, in insertion order.
    pub children: Vec<usize>,
}

impl SceneNode {
    /// The factor list of this node's local transform.
    pub open spec fn local(self) -> Seq<Prim> {
        local_factors(self.position, self.rotation, self.scale, self.reference_point)
    }

    /// Whether traversal draws this node: it has a geometry handle and a
    /// positive element count.
    pub open spec fn drawable(self) -> bool {
        self.vao_id != 0 && self.index_count > 0
    }
}

/// Whether `a` and `b` agree on every field but the children list.
pub open spec fn same_fields(a: SceneNode, b: SceneNode) -> bool {
    &&& a.position == b.position
    &&& a.rotation == b.rotation
    &&& a.scale == b.scale
    &&& a.reference_point == b.reference_point
    &&& a.vao_id == b.vao_id
    &&& a.index_count == b.index_count
}

/// Whether `n` is a freshly made node carrying the given geometry: an
/// identity transform (zero position, rotation and pivot, scale of one),
/// the given handle and count, and no children.
pub open spec fn fresh_node(n: SceneNode, vao_id: u32, index_count: i32) -> bool {
    &&& n.position == (Vec3 { x: 0, y: 0, z: 0 })
    &&& n.rotation == (Vec3 { x: 0, y: 0, z: 0 })
    &&& n.scale == (Vec3 { x: FIXED_ONE, y: FIXED_ONE, z: FIXED_ONE })
    &&& n.reference_point == (Vec3 { x: 0, y: 0, z: 0 })
    &&& n.vao_id == vao_id
    &&& n.index_count == index_count
    &&& n.children@ == Seq::<usize>::empty()
}

/// Whether `new` is `old` with at most the node at `idx` replaced.
pub open spec fn updated_only(old_nodes: Seq<SceneNode>, new_nodes: Seq<SceneNode>, idx: int) -> bool {
    &&& new_nodes.len() == old_nodes.len()
    &&& forall|k: int| 0 <= k < old_nodes.len() && k != idx ==> new_nodes[k] == old_nodes[k]
}

/// The whole scene: an arena of nodes. Index zero, once a node exists, is
/// the root.
#[derive(Debug)]
pub struct SceneGraph {
    /// The nodes, addressed by index.
    pub nodes: Vec<SceneNode>,
}

/// Why attaching a child was rejected.
#[derive(Clone, Copy, PartialEq, Eq, Structural, Debug)]
pub enum AttachError {
    /// The parent or the child index is out of range.
    NoSuchNode,
    /// The child's index does not exceed the parent's; attaching it could
    /// close a cycle.
    NotAfterParent,
    /// The child already has a parent; a node is owned by at most one.
    AlreadyAttached,
}

impl SceneGraph {
    /// Well-formedness: every child index points into the arena and
    /// exceeds its parent's index.
    pub open spec fn wf(self) -> bool {
        forall|i: int, j: int|
            0 <= i < self.nodes@.len() && 0 <= j < self.nodes@[i].children@.len()
                ==> i < #[trigger] self.nodes@[i].children@[j] < self.nodes@.len()
    }

    /// Whether node `c` is already some node's child.
    pub open spec fn attached(self, c: usize) -> bool {
        exists|i: int| 0 <= i < self.nodes@.len() && self.nodes@[i].children@.contains(c)
    }

    /// An empty scene graph.
    pub fn new() -> (g: SceneGraph)
        ensures
            g.nodes@ == Seq::<SceneNode>::empty(),
            g.wf(),
    {
        SceneGraph { nodes: Vec::new() }
    }

    /// The number of nodes in the arena.
    pub fn len(&self) -> (n: usize)
        ensures
            n == self.nodes@.len(),
    {
        self.nodes.len()
    }

    /// Adds a blank node (no geometry, identity transform) and returns its
    /// index.
    pub fn new_node(&mut self) -> (idx: usize)
        requires
            old(self).wf(),
        ensures
            final(self).wf(),
            idx == old(self).nodes@.len(),
            final(self).nodes@.len() == old(self).nodes@.len() + 1,
            final(self).nodes@.subrange(0, idx as int) == old(self).nodes@,
            fresh_node(final(self).nodes@[idx as int], 0, 0),
    {
        self.new_node_with_geometry(0, 0)
    }

    /// Adds a node with the given geometry handle and element count, an
    /// identity transform otherwise, and returns its index.
    pub fn new_node_with_geometry(&mut self, vao_id: u32, index_count: i32) -> (idx: usize)
        requires
            old(self).wf(),
        ensures
            final(self).wf(),
            idx == old(self).nodes@.len(),
            final(self).nodes@.len() == old(self).nodes@.len() + 1,
            final(self).nodes@.subrange(0, idx as int) == old(self).nodes@,
            fresh_node(final(self).nodes@[idx as int], vao_id, index_count),
    {
        let idx = self.nodes.len();
        self.nodes.push(SceneNode {
            position: Vec3::zero(),
            rotation: Vec3::zero(),
            scale: Vec3::one(),
            reference_point: Vec3::zero(),
            vao_id,
            index_count,
            children: Vec::new(),
        });
        proof {
            assert(self.nodes@.subrange(0, idx as int) =~= old(self).nodes@);
            assert forall|i: int, j: int|
                0 <= i < self.nodes@.len() && 0 <= j < self.nodes@[i].children@.len()
                    implies i < #[trigger] self.nodes@[i].children@[j] < self.nodes@.len() by {
                assert(i < idx as int ==> self.nodes@[i] == old(self).nodes@[i]);
            }
        }
        idx
    }

    /// Appends `child` to `parent`'s children, preserving insertion order.
    ///
    /// Rejected when either index is out of range, when the child's index
    /// does not exceed the parent's (which keeps the graph acyclic), or
    /// when the child already has a parent; a rejection leaves the graph
    /// unchanged.
    pub fn add_child(&mut self, parent: usize, child: usize) -> (r: Result<(), AttachError>)
        requires
            old(self).wf(),
        ensures
            final(self).wf(),
            r is Ok <==> parent < old(self).nodes@.len() && child < old(self).nodes@.len()
                && parent < child && !old(self).attached(child),
            r is Ok ==> {
                &&& updated_only(old(self).nodes@, final(self).nodes@, parent as int)
                &&& same_fields(final(self).nodes@[parent as int], old(self).nodes@[parent as int])
                &&& final(self).nodes@[parent as int].children@
                    == old(self).nodes@[parent as int].children@.push(child)
            },
            r is Err ==> final(self).nodes@ == old(self).nodes@,
            r == Result::<(), AttachError>::Err(AttachError::NoSuchNode) <==> (
                parent >= old(self).nodes@.len() || child >= old(self).nodes@.len()),
            r == Result::<(), AttachError>::Err(AttachError::NotAfterParent) <==> (
                parent < old(self).nodes@.len() && child < old(self).nodes@.len()
                && child <= parent),
            r == Result::<(), AttachError>::Err(AttachError::AlreadyAttached) <==> (
                parent < old(self).nodes@.len() && child < old(self).nodes@.len()
                && parent < child && old(self).attached(child)),
    {
        let n = self.nodes.len();
        if parent >= n || child >= n {
            return Err(AttachError::NoSuchNode);
        }
        if child <= parent {
            return Err(AttachError::NotAfterParent);
        }
        if self.is_attached(child) {
            return Err(AttachError::AlreadyAttached);
        }
        let node = &mut self.nodes[parent];
        node.children.push(child);
        proof {
            assert forall|i: int, j: int|
                0 <= i < self.nodes@.len() && 0 <= j < self.nodes@[i].children@.len()
                    implies i < #[trigger] self.nodes@[i].children@[j] < self.nodes@.len() by {
                if i != parent as int {
                    assert(self.nodes@[i] == old(self).nodes@[i]);
                } else if j < old(self).nodes@[i].children@.len() {
                    assert(self.nodes@[i].children@[j]
                        == old(self).nodes@[i].children@[j]);
                } else {
                    assert(self.nodes@[i].children@[j] == child);
                }
            }
        }
        Ok(())
    }

    /// Whether node `c` is already some node's child.
    pub fn is_attached(&self, c: usize) -> (r: bool)
        ensures
            r == self.attached(c),
    {
        let mut i: usize = 0;
        while i < self.nodes.len()
            invariant
                i <= self.nodes@.len(),
                forall|k: int| 0 <= k < i ==> !self.nodes@[k].children@.contains(c),
            decreases self.nodes@.len() - i,
        {
            if contains_index(&self.nodes[i].children, c) {
                return true;
            }
            i += 1;
        }
        false
    }

    /// The rotation of node `idx`.
    pub fn rotation_of(&self, idx: usize) -> (r: Vec3)
        requires
            idx < self.nodes@.len(),
        ensures
            r == self.nodes@[idx as int].rotation,
    {
        self.nodes[idx].rotation
    }

    /// Replaces the position of node `idx`.
    pub fn set_position(&mut self, idx: usize, p: Vec3)
        requires
            idx < old(self).nodes@.len(),
        ensures
            updated_only(old(self).nodes@, final(self).nodes@, idx as int),
            final(self).nodes@[idx as int] == (SceneNode { position: p, ..old(self).nodes@[idx as int] }),
            old(self).wf() ==> final(self).wf(),
    {
        let node = &mut self.nodes[idx];
        node.position = p;
        proof {
            if old(self).wf() {
                old(self).lemma_wf_after_field_update(*self);
            }
        }
    }

    /// Replaces the rotation of node `idx`.
    pub fn set_rotation(&mut self, idx: usize, r: Vec3)
        requires
            idx < old(self).nodes@.len(),
        ensures
            updated_only(old(self).nodes@, final(self).nodes@, idx as int),
            final(self).nodes@[idx as int] == (SceneNode { rotation: r, ..old(self).nodes@[idx as int] }),
            old(self).wf() ==> final(self).wf(),
    {
        let node = &mut self.nodes[idx];
        node.rotation = r;
        proof {
            if old(self).wf() {
                old(self).lemma_wf_after_field_update(*self);
            }
        }
    }

    /// Replaces the pivot of node `idx`.
    pub fn set_reference_point(&mut self, idx: usize, p: Vec3)
        requires
            idx < old(self).nodes@.len(),
        ensures
            updated_only(old(self).nodes@, final(self).nodes@, idx as int),
            final(self).nodes@[idx as int]
                == (SceneNode { reference_point: p, ..old(self).nodes@[idx as int] }),
            old(self).wf() ==> final(self).wf(),
    {
        let node = &mut self.nodes[idx];
        node.reference_point = p;
        proof {
            if old(self).wf() {
                old(self).lemma_wf_after_field_update(*self);
            }
        }
    }

    /// A transform-field update never disturbs well-formedness: it leaves
    /// every children list as it was.
    pub proof fn lemma_wf_after_field_update(self, other: SceneGraph)
        requires
            self.wf(),
            self.nodes@.len() == other.nodes@.len(),
            forall|i: int| 0 <= i < self.nodes@.len()
                ==> #[trigger] other.nodes@[i].children@ == self.nodes@[i].children@,
        ensures
            other.wf(),
    {
        assert forall|i: int, j: int|
            0 <= i < other.nodes@.len() && 0 <= j < other.nodes@[i].children@.len()
                implies i < #[trigger] other.nodes@[i].children@[j] < other.nodes@.len() by {
            assert(other.nodes@[i].children@ == self.nodes@[i].children@);
            assert(i < self.nodes@[i].children@[j] < self.nodes@.len());
        }
    }
}

/// Whether `v` holds `x`.
pub fn contains_index(v: &Vec<usize>, x: usize) -> (r: bool)
    ensures
        r == v@.contains(x),
{
    let mut i: usize = 0;
    while i < v.len()
        invariant
            i <= v@.len(),
            forall|k: int| 0 <= k < i ==> v@[k] != x,
        decreases v@.len() - i,
    {
        if v[i] == x {
            return true;
        }
        i += 1;
    }
    false
}

} // verus!
