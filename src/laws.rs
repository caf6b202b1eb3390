//! Algebraic laws of the vector operations, over `i64` components.
//!
//! Each law leaves out only the inputs on which one of the operations it
//! speaks of would overflow, where the operation itself is not defined.
use vstd::prelude::*;
use vstd::std_specs::ops::{AddSpec, DivSpec, MulSpec, NegSpec, SubSpec};

use crate::vector::Vec3;

verus! {

/// Adding `b` and then subtracting `b` gives back `a`.
pub proof fn lemma_add_then_sub(a: Vec3<i64>, b: Vec3<i64>)
    requires
        a.add_req(b),
    ensures
        a.add_spec(b).sub_req(b),
        a.add_spec(b).sub_spec(b) == a,
{
}

/// Scaling by two and then dividing by two gives back `a`.
pub proof fn lemma_scale_then_divide(a: Vec3<i64>)
    requires
        a.mul_req(2i64),
    ensures
        a.mul_spec(2i64).div_req(2i64),
        a.mul_spec(2i64).div_spec(2i64) == a,
{
}

/// The dot product is commutative.
pub proof fn lemma_dot_commutative(a: Vec3<i64>, b: Vec3<i64>)
    requires
        a.dot_req(b),
    ensures
        b.dot_req(a),
        a.dot_spec(b) == b.dot_spec(a),
{
    assert(a.x * b.x == b.x * a.x && a.y * b.y == b.y * a.y && a.z * b.z == b.z * a.z)
        by (nonlinear_arith);
}

/// The cross product is anti-commutative: `a × b == -(b × a)`, wherever both
/// products are defined (one may be `i64::MIN` in a component where the
/// other would be `2^63`).
pub proof fn lemma_cross_anticommutative(a: Vec3<i64>, b: Vec3<i64>)
    requires
        a.cross_req(b),
        b.cross_req(a),
    ensures
        b.cross_spec(a).neg_req(),
        a.cross_spec(b) == b.cross_spec(a).neg_spec(),
{
    assert(a.y * b.z == b.z * a.y && a.z * b.y == b.y * a.z && a.z * b.x == b.x * a.z
        && a.x * b.z == b.z * a.x && a.x * b.y == b.y * a.x && a.y * b.x == b.x * a.y)
        by (nonlinear_arith);
}

/// The cross product of a vector with itself is the zero vector.
pub proof fn lemma_cross_self_is_zero(a: Vec3<i64>)
    requires
        a.cross_req(a),
    ensures
        a.cross_spec(a) == (Vec3::<i64> { x: 0, y: 0, z: 0 }),
{
    assert(a.y * a.z == a.z * a.y && a.z * a.x == a.x * a.z && a.x * a.y == a.y * a.x)
        by (nonlinear_arith);
}

} // verus!
