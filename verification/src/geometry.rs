//! Vectors in exact arithmetic, and the test of which way a triangle faces.

use vstd::prelude::*;
use vstd::arithmetic::mul::{
    lemma_mul_is_associative, lemma_mul_is_commutative, lemma_mul_is_distributive_sub,
};

verus! {

/// A point or a vector in space with whole coordinates, in whatever unit the
/// context names.
pub struct Vector3 {
    pub x: int,
    pub y: int,
    pub z: int,
}

impl Vector3 {
    /// The vector from `other` to `self`.
    pub open spec fn minus(self, other: Vector3) -> Vector3 {
        Vector3 { x: self.x - other.x, y: self.y - other.y, z: self.z - other.z }
    }
}

/// The triple product of `n`, `u` and `v`: the volume, with sign, of the
/// solid that the three span. It is positive exactly if `n` points to that
/// side of the plane of `u` and `v` from which the turn from `u` to `v` is
/// seen to run counter-clockwise.
pub open spec fn triple_product(n: Vector3, u: Vector3, v: Vector3) -> int {
    n.x * (u.y * v.z - u.z * v.y) + n.y * (u.z * v.x - u.x * v.z) + n.z * (u.x * v.y - u.y * v.x)
}

/// Which way the triangle `a`, `b`, `c` faces with respect to `n`: the
/// result is positive exactly if the triangle runs counter-clockwise for an
/// eye that looks against `n`, and it is zero if `a`, `b` and `c` lie on one
/// line.
pub open spec fn signed_volume(a: Vector3, b: Vector3, c: Vector3, n: Vector3) -> int {
    triple_product(n, b.minus(a), c.minus(a))
}

/// A factor moves past another into a product: `a * (b * c)` is
/// `b * (a * c)`.
pub proof fn lemma_mul_swap(a: int, b: int, c: int)
    ensures
        a * (b * c) == b * (a * c),
{
    lemma_mul_is_associative(a, b, c);
    lemma_mul_is_associative(b, a, c);
    lemma_mul_is_commutative(a, b);
}

/// The triple product where `n` and `v` are level: only the rise of `u`
/// counts.
pub proof fn lemma_triple_product_level_second(n: Vector3, u: Vector3, v: Vector3)
    requires
        n.y == 0,
        v.y == 0,
    ensures
        triple_product(n, u, v) == u.y * (n.x * v.z - n.z * v.x),
{
    lemma_mul_swap(n.x, u.y, v.z);
    lemma_mul_swap(n.z, u.y, v.x);
    lemma_mul_is_distributive_sub(n.z, 0, u.y * v.x);
    lemma_mul_is_distributive_sub(u.y, n.x * v.z, n.z * v.x);
}

/// The triple product where `n` and `u` are level: only the rise of `v`
/// counts.
pub proof fn lemma_triple_product_level_first(n: Vector3, u: Vector3, v: Vector3)
    requires
        n.y == 0,
        u.y == 0,
    ensures
        triple_product(n, u, v) == v.y * (n.z * u.x - n.x * u.z),
{
    lemma_mul_is_associative(n.x, u.z, v.y);
    lemma_mul_is_associative(n.z, u.x, v.y);
    lemma_mul_is_commutative(n.x * u.z, v.y);
    lemma_mul_is_commutative(n.z * u.x, v.y);
    lemma_mul_is_distributive_sub(n.x, 0, u.z * v.y);
    lemma_mul_is_distributive_sub(v.y, n.z * u.x, n.x * u.z);
}

/// The triple product where `n` stands upright.
pub proof fn lemma_triple_product_upright(n: Vector3, u: Vector3, v: Vector3)
    requires
        n.x == 0,
        n.z == 0,
    ensures
        triple_product(n, u, v) == n.y * (u.z * v.x - u.x * v.z),
{
}

/// The triple product where `u` and `v` end at one height: the part along
/// the upright axis is set apart from the part that the drop of `u` and `v`
/// brings.
pub proof fn lemma_triple_product_level_ends(n: Vector3, u: Vector3, v: Vector3)
    requires
        u.y == v.y,
    ensures
        triple_product(n, u, v) == u.y * (n.x * (v.z - u.z) - n.z * (v.x - u.x)) + n.y * (u.z
            * v.x - u.x * v.z),
{
    let y = u.y;
    // the part along x
    lemma_mul_is_commutative(u.z, y);
    lemma_mul_is_distributive_sub(y, v.z, u.z);
    lemma_mul_swap(n.x, y, v.z - u.z);
    // the part along z
    lemma_mul_is_commutative(u.x, y);
    lemma_mul_is_distributive_sub(y, v.x, u.x);
    lemma_mul_swap(n.z, y, v.x - u.x);
    lemma_mul_is_distributive_sub(n.z, 0, y * (v.x - u.x));
    assert(n.z * (u.x * v.y - u.y * v.x) == -(y * (n.z * (v.x - u.x)))) by {
        assert(u.x * v.y - u.y * v.x == 0 - y * (v.x - u.x));
    }
    lemma_mul_is_distributive_sub(y, n.x * (v.z - u.z), n.z * (v.x - u.x));
}

} // verus!
