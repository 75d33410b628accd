//! Fixed-point scalars and 3-component vectors.
//!
//! A scalar is an `i64` counting thousandths of a unit. Arithmetic on
//! scalars saturates at the `i64` range; every operation states its result
//! exactly through [`clamp_i64`].

use vstd::prelude::*;

verus! {

/// One whole unit in fixed-point scale: a scale factor of one, stored as a
/// count of thousandths.
pub const FIXED_ONE: i64 = 1000;

/// The value `x` clamped to the range of `i64`.
pub open spec fn clamp_i64(x: int) -> int {
    if x > i64::MAX as int {
        i64::MAX as int
    } else if x < i64::MIN as int {
        i64::MIN as int
    } else {
        x
    }
}

/// Saturating addition: exact where the sum fits, clamped otherwise.
pub fn sat_add(a: i64, b: i64) -> (r: i64)
    ensures
        r as int == clamp_i64(a + b),
{
    let s: i128 = a as i128 + b as i128;
    if s > i64::MAX as i128 {
        i64::MAX
    } else if s < i64::MIN as i128 {
        i64::MIN
    } else {
        s as i64
    }
}

/// Saturating subtraction: exact where the difference fits, clamped otherwise.
pub fn sat_sub(a: i64, b: i64) -> (r: i64)
    ensures
        r as int == clamp_i64(a - b),
{
    let s: i128 = a as i128 - b as i128;
    if s > i64::MAX as i128 {
        i64::MAX
    } else if s < i64::MIN as i128 {
        i64::MIN
    } else {
        s as i64
    }
}

/// Saturating multiplication: exact where the product fits, clamped otherwise.
pub fn sat_mul(a: i64, b: i64) -> (r: i64)
    ensures
        r as int == clamp_i64(a * b),
{
    proof {
        assert(-(i128::MAX as int) <= a as int * b as int <= i128::MAX as int)
            by (nonlinear_arith)
            requires
                i64::MIN as int <= a as int <= i64::MAX as int,
                i64::MIN as int <= b as int <= i64::MAX as int,
        ;
    }
    let s: i128 = a as i128 * b as i128;
    if s > i64::MAX as i128 {
        i64::MAX
    } else if s < i64::MIN as i128 {
        i64::MIN
    } else {
        s as i64
    }
}

/// A 3-component fixed-point vector: a position, a scale, or a triple of
/// Euler angles (one per axis).
#[derive(Clone, Copy, PartialEq, Eq, Structural, Debug)]
pub struct Vec3 {
    pub x: i64,
    pub y: i64,
    pub z: i64,
}

/// Componentwise negation of `v`, each component clamped to the `i64` range.
pub open spec fn neg_vec3(v: Vec3) -> Vec3 {
    Vec3 {
        x: clamp_i64(-(v.x as int)) as i64,
        y: clamp_i64(-(v.y as int)) as i64,
        z: clamp_i64(-(v.z as int)) as i64,
    }
}

impl Vec3 {
    /// The zero vector.
    pub fn zero() -> (r: Vec3)
        ensures
            r == (Vec3 { x: 0, y: 0, z: 0 }),
    {
        Vec3 { x: 0, y: 0, z: 0 }
    }

    /// The vector with every component one whole unit: the identity scale.
    pub fn one() -> (r: Vec3)
        ensures
            r == (Vec3 { x: FIXED_ONE, y: FIXED_ONE, z: FIXED_ONE }),
    {
        Vec3 { x: FIXED_ONE, y: FIXED_ONE, z: FIXED_ONE }
    }

    /// Componentwise saturating negation.
    pub fn neg(&self) -> (r: Vec3)
        ensures
            r == neg_vec3(*self),
    {
        Vec3 { x: sat_sub(0, self.x), y: sat_sub(0, self.y), z: sat_sub(0, self.z) }
    }
}

} // verus!
