//! Transforms as ordered sequences of primitive factors.
//!
//! A 4x4 transform matrix is represented by the ordered list of the
//! primitive matrices whose product it is. Matrix multiplication is
//! associative, so composing two transforms is concatenating their factor
//! lists; the identity is the empty list. The factors of a scene node's
//! local transform follow the fixed pivoted composition order
//! `T(position) * T(reference_point) * Rx * Ry * Rz * T(-reference_point) * S(scale)`.

use vstd::prelude::*;

use crate::math::{neg_vec3, Vec3};

verus! {

/// One primitive factor of a transform matrix.
///
/// Angles are fixed-point radians (thousandths of a radian); translations
/// and scales are fixed-point units.
#[derive(Clone, Copy, PartialEq, Eq, Structural, Debug)]
pub enum Prim {
    /// Translation by a vector.
    Translate(Vec3),
    /// Rotation about the X axis by an angle.
    RotateX(i64),
    /// Rotation about the Y axis by an angle.
    RotateY(i64),
    /// Rotation about the Z axis by an angle.
    RotateZ(i64),
    /// Componentwise scaling by a vector.
    Scale(Vec3),
}

/// The factor list of a node's local transform, in the fixed pivoted
/// composition order: translate to the node's position, move the pivot to
/// the origin's place, rotate about X, then Y, then Z, move the pivot back,
/// then scale.
pub open spec fn local_factors(
    position: Vec3,
    rotation: Vec3,
    scale: Vec3,
    reference_point: Vec3,
) -> Seq<Prim> {
    seq![
        Prim::Translate(position),
        Prim::Translate(reference_point),
        Prim::RotateX(rotation.x),
        Prim::RotateY(rotation.y),
        Prim::RotateZ(rotation.z),
        Prim::Translate(neg_vec3(reference_point)),
        Prim::Scale(scale),
    ]
}

/// Builds the local transform of a node with the given fields, as its exact
/// factor list.
pub fn local_transform(
    position: Vec3,
    rotation: Vec3,
    scale: Vec3,
    reference_point: Vec3,
) -> (r: Vec<Prim>)
    ensures
        r@ == local_factors(position, rotation, scale, reference_point),
{
    let mut r: Vec<Prim> = Vec::new();
    r.push(Prim::Translate(position));
    r.push(Prim::Translate(reference_point));
    r.push(Prim::RotateX(rotation.x));
    r.push(Prim::RotateY(rotation.y));
    r.push(Prim::RotateZ(rotation.z));
    r.push(Prim::Translate(reference_point.neg()));
    r.push(Prim::Scale(scale));
    proof {
        assert(r@ =~= local_factors(position, rotation, scale, reference_point));
    }
    r
}

/// The local factor list is exactly the seven primitive matrices of the
/// pivoted composition, in their fixed, non-reorderable order.
pub proof fn lemma_local_factor_order(
    position: Vec3,
    rotation: Vec3,
    scale: Vec3,
    reference_point: Vec3,
)
    ensures
        ({
            let l = local_factors(position, rotation, scale, reference_point);
            &&& l.len() == 7
            &&& l[0] == Prim::Translate(position)
            &&& l[1] == Prim::Translate(reference_point)
            &&& l[2] == Prim::RotateX(rotation.x)
            &&& l[3] == Prim::RotateY(rotation.y)
            &&& l[4] == Prim::RotateZ(rotation.z)
            &&& l[5] == Prim::Translate(neg_vec3(reference_point))
            &&& l[6] == Prim::Scale(scale)
        }),
{
}

/// Concatenates two factor lists: the composition `a * b` of the transforms
/// they represent.
pub fn compose(a: &Vec<Prim>, b: &Vec<Prim>) -> (r: Vec<Prim>)
    ensures
        r@ == a@ + b@,
{
    let mut r: Vec<Prim> = Vec::new();
    let mut i: usize = 0;
    while i < a.len()
        invariant
            i <= a.len(),
            r@ == a@.subrange(0, i as int),
        decreases a.len() - i,
    {
        r.push(a[i]);
        proof {
            assert(r@ =~= a@.subrange(0, i + 1 as int));
        }
        i += 1;
    }
    proof {
        assert(r@ =~= a@);
    }
    let mut j: usize = 0;
    while j < b.len()
        invariant
            j <= b.len(),
            r@ == a@ + b@.subrange(0, j as int),
        decreases b.len() - j,
    {
        r.push(b[j]);
        proof {
            assert(r@ =~= a@ + b@.subrange(0, j + 1 as int));
        }
        j += 1;
    }
    proof {
        assert(r@ =~= a@ + b@);
    }
    r
}

/// Copies a factor list.
pub fn duplicate(a: &Vec<Prim>) -> (r: Vec<Prim>)
    ensures
        r@ == a@,
{
    let mut r: Vec<Prim> = Vec::new();
    let mut i: usize = 0;
    while i < a.len()
        invariant
            i <= a.len(),
            r@ == a@.subrange(0, i as int),
        decreases a.len() - i,
    {
        r.push(a[i]);
        proof {
            assert(r@ =~= a@.subrange(0, i + 1 as int));
        }
        i += 1;
    }
    proof {
        assert(r@ =~= a@);
    }
    r
}

} // verus!
