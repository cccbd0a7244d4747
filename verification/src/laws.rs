//! The algebraic laws of the quaternion model, stated and proved over the
//! exact spec-level operations of [`crate::quaternion`].
//!
//! Every law here is exact: where floating-point quaternions satisfy these
//! properties only up to rounding noise, the rational representation
//! satisfies them on the nose.

use vstd::prelude::*;

use crate::quaternion::{Quat, q_add, q_conj, q_div, q_im_parallel, q_inverse, q_is_zero, q_mul,
    q_neg, q_norm_sq, q_one, q_same, q_sub, q_wf};
use crate::rational::{r_mul, r_same, r_wf};

verus! {

/// Conjugation is an involution: conjugating twice gives the value back,
/// component for component, exactly.
pub proof fn lemma_conjugate_involution(a: Quat)
    ensures
        q_conj(q_conj(a)) == a,
{
}

/// Subtraction is addition of the negation: `a - b == a + (-b)`, component
/// for component, exactly.
pub proof fn lemma_sub_is_add_neg(a: Quat, b: Quat)
    ensures
        q_sub(a, b) == q_add(a, q_neg(b)),
{
    assert(a.w * b.den - b.w * a.den == a.w * b.den + (-b.w) * a.den) by (nonlinear_arith);
    assert(a.x * b.den - b.x * a.den == a.x * b.den + (-b.x) * a.den) by (nonlinear_arith);
    assert(a.y * b.den - b.y * a.den == a.y * b.den + (-b.y) * a.den) by (nonlinear_arith);
    assert(a.z * b.den - b.z * a.den == a.z * b.den + (-b.z) * a.den) by (nonlinear_arith);
}

/// Addition is commutative, component for component, exactly.
pub proof fn lemma_add_commutative(a: Quat, b: Quat)
    ensures
        q_add(a, b) == q_add(b, a),
{
    assert(a.w * b.den + b.w * a.den == b.w * a.den + a.w * b.den) by (nonlinear_arith);
    assert(a.x * b.den + b.x * a.den == b.x * a.den + a.x * b.den) by (nonlinear_arith);
    assert(a.y * b.den + b.y * a.den == b.y * a.den + a.y * b.den) by (nonlinear_arith);
    assert(a.z * b.den + b.z * a.den == b.z * a.den + a.z * b.den) by (nonlinear_arith);
    assert(a.den * b.den == b.den * a.den) by (nonlinear_arith);
}

/// One component of associativity of addition, as a polynomial identity.
proof fn lemma_add_assoc_component(u: int, v: int, t: int, p: int, q: int, s: int)
    ensures
        (u * q + v * p) * s + t * (p * q) == u * (q * s) + (v * s + t * q) * p,
{
    assert((u * q + v * p) * s == (u * q) * s + (v * p) * s) by (nonlinear_arith);
    assert((u * q) * s == u * (q * s)) by (nonlinear_arith);
    assert((v * p) * s == (v * s) * p) by (nonlinear_arith);
    assert((v * s + t * q) * p == (v * s) * p + (t * q) * p) by (nonlinear_arith);
    assert(t * (p * q) == (t * q) * p) by (nonlinear_arith);
}

/// Addition is associative, component for component, exactly.
pub proof fn lemma_add_associative(a: Quat, b: Quat, c: Quat)
    ensures
        q_add(q_add(a, b), c) == q_add(a, q_add(b, c)),
{
    lemma_add_assoc_component(a.w, b.w, c.w, a.den, b.den, c.den);
    lemma_add_assoc_component(a.x, b.x, c.x, a.den, b.den, c.den);
    lemma_add_assoc_component(a.y, b.y, c.y, a.den, b.den, c.den);
    lemma_add_assoc_component(a.z, b.z, c.z, a.den, b.den, c.den);
    assert((a.den * b.den) * c.den == a.den * (b.den * c.den)) by (nonlinear_arith);
}

/// The inverse of a nonzero quaternion is well formed: its denominator, the
/// numerator of the squared norm, is positive.
pub proof fn lemma_inverse_wf(a: Quat)
    requires
        q_wf(a),
        !q_is_zero(a),
    ensures
        q_wf(q_inverse(a)),
{
    assert(a.w * a.w + a.x * a.x + a.y * a.y + a.z * a.z > 0) by (nonlinear_arith)
        requires
            !(a.w == 0 && a.x == 0 && a.y == 0 && a.z == 0),
    ;
}

/// A nonzero quaternion times its inverse is the multiplicative identity
/// `(1, 0, 0, 0)` — exactly, not merely within a tolerance.
pub proof fn lemma_mul_inverse_is_one(a: Quat)
    requires
        q_wf(a),
        !q_is_zero(a),
    ensures
        q_wf(q_mul(a, q_inverse(a))),
        q_same(q_mul(a, q_inverse(a)), q_one()),
{
    lemma_inverse_wf(a);
    let n = a.w * a.w + a.x * a.x + a.y * a.y + a.z * a.z;
    assert(a.den * n > 0) by (nonlinear_arith)
        requires
            a.den > 0,
            n > 0,
    ;
    assert(a.w * (a.w * a.den) == (a.w * a.w) * a.den) by (nonlinear_arith);
    assert(a.x * (-a.x * a.den) == -((a.x * a.x) * a.den)) by (nonlinear_arith);
    assert(a.y * (-a.y * a.den) == -((a.y * a.y) * a.den)) by (nonlinear_arith);
    assert(a.z * (-a.z * a.den) == -((a.z * a.z) * a.den)) by (nonlinear_arith);
    assert(a.den * (a.w * a.w + a.x * a.x + a.y * a.y + a.z * a.z) == (a.w * a.w) * a.den + (a.x
        * a.x) * a.den + (a.y * a.y) * a.den + (a.z * a.z) * a.den) by (nonlinear_arith);
    assert(a.w * (-a.x * a.den) + a.x * (a.w * a.den) + a.y * (-a.z * a.den) - a.z * (-a.y
        * a.den) == 0) by (nonlinear_arith);
    assert(a.w * (-a.y * a.den) - a.x * (-a.z * a.den) + a.y * (a.w * a.den) + a.z * (-a.x
        * a.den) == 0) by (nonlinear_arith);
    assert(a.w * (-a.z * a.den) + a.x * (-a.y * a.den) - a.y * (-a.x * a.den) + a.z * (a.w
        * a.den) == 0) by (nonlinear_arith);
}

/// Multiplication of integers is commutative.
proof fn lemma_mul_comm_pair(u: int, v: int)
    by (nonlinear_arith)
    ensures
        u * v == v * u,
{
}

/// A product of two products, rearranged into matching pairs.
proof fn lemma_rearrange(u: int, v: int, s: int, t: int)
    by (nonlinear_arith)
    ensures
        (u * v) * (s * t) == (u * s) * (v * t),
{
}

/// The square of `p - q - r - s`, expanded into monomials.
proof fn lemma_square_nnn(p: int, q: int, r: int, s: int)
    by (nonlinear_arith)
    ensures
        (p - q - r - s) * (p - q - r - s) == p * p + q * q + r * r + s * s - 2 * (p * q) - 2 * (p
            * r) - 2 * (p * s) + 2 * (q * r) + 2 * (q * s) + 2 * (r * s),
{
}

/// The square of `p + q + r - s`, expanded into monomials.
proof fn lemma_square_ppn(p: int, q: int, r: int, s: int)
    by (nonlinear_arith)
    ensures
        (p + q + r - s) * (p + q + r - s) == p * p + q * q + r * r + s * s + 2 * (p * q) + 2 * (p
            * r) - 2 * (p * s) + 2 * (q * r) - 2 * (q * s) - 2 * (r * s),
{
}

/// The square of `p - q + r + s`, expanded into monomials.
proof fn lemma_square_npp(p: int, q: int, r: int, s: int)
    by (nonlinear_arith)
    ensures
        (p - q + r + s) * (p - q + r + s) == p * p + q * q + r * r + s * s - 2 * (p * q) + 2 * (p
            * r) + 2 * (p * s) - 2 * (q * r) - 2 * (q * s) + 2 * (r * s),
{
}

/// The square of `p + q - r + s`, expanded into monomials.
proof fn lemma_square_pnp(p: int, q: int, r: int, s: int)
    by (nonlinear_arith)
    ensures
        (p + q - r + s) * (p + q - r + s) == p * p + q * q + r * r + s * s + 2 * (p * q) - 2 * (p
            * r) + 2 * (p * s) - 2 * (q * r) + 2 * (q * s) - 2 * (r * s),
{
}

/// A product of two four-term sums, expanded into the sixteen products.
proof fn lemma_expand_sums(
    u0: int,
    u1: int,
    u2: int,
    u3: int,
    v0: int,
    v1: int,
    v2: int,
    v3: int,
)
    ensures
        (u0 + u1 + u2 + u3) * (v0 + v1 + v2 + v3) == u0 * v0 + u0 * v1 + u0 * v2 + u0 * v3 + u1
            * v0 + u1 * v1 + u1 * v2 + u1 * v3 + u2 * v0 + u2 * v1 + u2 * v2 + u2 * v3 + u3 * v0
            + u3 * v1 + u3 * v2 + u3 * v3,
{
    let u = u0 + u1 + u2 + u3;
    vstd::arithmetic::mul::lemma_mul_is_distributive_add(u, v0 + v1 + v2, v3);
    vstd::arithmetic::mul::lemma_mul_is_distributive_add(u, v0 + v1, v2);
    vstd::arithmetic::mul::lemma_mul_is_distributive_add(u, v0, v1);
    vstd::arithmetic::mul::lemma_mul_is_distributive_add_other_way(v0, u0 + u1 + u2, u3);
    vstd::arithmetic::mul::lemma_mul_is_distributive_add_other_way(v0, u0 + u1, u2);
    vstd::arithmetic::mul::lemma_mul_is_distributive_add_other_way(v0, u0, u1);
    vstd::arithmetic::mul::lemma_mul_is_distributive_add_other_way(v1, u0 + u1 + u2, u3);
    vstd::arithmetic::mul::lemma_mul_is_distributive_add_other_way(v1, u0 + u1, u2);
    vstd::arithmetic::mul::lemma_mul_is_distributive_add_other_way(v1, u0, u1);
    vstd::arithmetic::mul::lemma_mul_is_distributive_add_other_way(v2, u0 + u1 + u2, u3);
    vstd::arithmetic::mul::lemma_mul_is_distributive_add_other_way(v2, u0 + u1, u2);
    vstd::arithmetic::mul::lemma_mul_is_distributive_add_other_way(v2, u0, u1);
    vstd::arithmetic::mul::lemma_mul_is_distributive_add_other_way(v3, u0 + u1 + u2, u3);
    vstd::arithmetic::mul::lemma_mul_is_distributive_add_other_way(v3, u0 + u1, u2);
    vstd::arithmetic::mul::lemma_mul_is_distributive_add_other_way(v3, u0, u1);
}

/// Euler's four-square identity: the sum of squares of the Hamilton product's
/// components is the product of the two sums of squares. Each component's
/// square is expanded into monomials and rearranged into one fixed shape, so
/// that the cross terms cancel linearly in the final step.
proof fn lemma_four_square_identity(
    aw: int,
    ax: int,
    ay: int,
    az: int,
    bw: int,
    bx: int,
    by: int,
    bz: int,
)
    ensures
        (aw * bw - ax * bx - ay * by - az * bz) * (aw * bw - ax * bx - ay * by - az * bz) + (aw
            * bx + ax * bw + ay * bz - az * by) * (aw * bx + ax * bw + ay * bz - az * by) + (aw
            * by - ax * bz + ay * bw + az * bx) * (aw * by - ax * bz + ay * bw + az * bx) + (aw
            * bz + ax * by - ay * bx + az * bw) * (aw * bz + ax * by - ay * bx + az * bw) == (aw
            * aw + ax * ax + ay * ay + az * az) * (bw * bw + bx * bx + by * by + bz * bz),
{
    lemma_square_nnn(aw * bw, ax * bx, ay * by, az * bz);
    lemma_square_ppn(aw * bx, ax * bw, ay * bz, az * by);
    lemma_square_npp(aw * by, ax * bz, ay * bw, az * bx);
    lemma_square_pnp(aw * bz, ax * by, ay * bx, az * bw);
    lemma_expand_sums(aw * aw, ax * ax, ay * ay, az * az, bw * bw, bx * bx, by * by, bz * bz);
    lemma_rearrange(aw, bw, aw, bw);
    lemma_rearrange(ax, bx, ax, bx);
    lemma_rearrange(ay, by, ay, by);
    lemma_rearrange(az, bz, az, bz);
    lemma_rearrange(aw, bx, aw, bx);
    lemma_rearrange(ax, bw, ax, bw);
    lemma_rearrange(ay, bz, ay, bz);
    lemma_rearrange(az, by, az, by);
    lemma_rearrange(aw, by, aw, by);
    lemma_rearrange(ax, bz, ax, bz);
    lemma_rearrange(ay, bw, ay, bw);
    lemma_rearrange(az, bx, az, bx);
    lemma_rearrange(aw, bz, aw, bz);
    lemma_rearrange(ax, by, ax, by);
    lemma_rearrange(ay, bx, ay, bx);
    lemma_rearrange(az, bw, az, bw);
    lemma_rearrange(aw, bw, ax, bx);
    lemma_rearrange(aw, bw, ay, by);
    lemma_rearrange(aw, bw, az, bz);
    lemma_rearrange(ax, bx, ay, by);
    lemma_rearrange(ax, bx, az, bz);
    lemma_rearrange(ay, by, az, bz);
    lemma_rearrange(aw, bx, ax, bw);
    lemma_rearrange(aw, bx, ay, bz);
    lemma_rearrange(aw, bx, az, by);
    lemma_rearrange(ax, bw, ay, bz);
    lemma_rearrange(ax, bw, az, by);
    lemma_rearrange(ay, bz, az, by);
    lemma_rearrange(aw, by, ax, bz);
    lemma_rearrange(aw, by, ay, bw);
    lemma_rearrange(aw, by, az, bx);
    lemma_rearrange(ax, bz, ay, bw);
    lemma_rearrange(ax, bz, az, bx);
    lemma_rearrange(ay, bw, az, bx);
    lemma_rearrange(aw, bz, ax, by);
    lemma_rearrange(aw, bz, ay, bx);
    lemma_rearrange(aw, bz, az, bw);
    lemma_rearrange(ax, by, ay, bx);
    lemma_rearrange(ax, by, az, bw);
    lemma_rearrange(ay, bx, az, bw);
    lemma_mul_comm_pair(bx, bw);
    lemma_mul_comm_pair(by, bw);
    lemma_mul_comm_pair(bz, bw);
    lemma_mul_comm_pair(by, bx);
    lemma_mul_comm_pair(bz, bx);
    lemma_mul_comm_pair(bz, by);
}

/// The squared norm is multiplicative: `normSquared(a * b)` equals
/// `normSquared(a) * normSquared(b)` — exactly, as rational numbers.
pub proof fn lemma_norm_sq_multiplicative(a: Quat, b: Quat)
    requires
        q_wf(a),
        q_wf(b),
    ensures
        r_wf(q_norm_sq(q_mul(a, b))),
        r_wf(r_mul(q_norm_sq(a), q_norm_sq(b))),
        r_same(q_norm_sq(q_mul(a, b)), r_mul(q_norm_sq(a), q_norm_sq(b))),
{
    lemma_four_square_identity(a.w, a.x, a.y, a.z, b.w, b.x, b.y, b.z);
    let na = a.w * a.w + a.x * a.x + a.y * a.y + a.z * a.z;
    let nb = b.w * b.w + b.x * b.x + b.y * b.y + b.z * b.z;
    let nm = q_norm_sq(q_mul(a, b)).num;
    assert((a.den * b.den) * (a.den * b.den) > 0 && (a.den * a.den) * (b.den * b.den) > 0 && (a.den
        * b.den) * (a.den * b.den) == (a.den * a.den) * (b.den * b.den)) by (nonlinear_arith)
        requires
            a.den > 0,
            b.den > 0,
    ;
    assert(nm * ((a.den * a.den) * (b.den * b.den)) == (na * nb) * ((a.den * b.den) * (a.den
        * b.den))) by (nonlinear_arith)
        requires
            nm == na * nb,
            (a.den * b.den) * (a.den * b.den) == (a.den * a.den) * (b.den * b.den),
    ;
}

/// The Hamilton product commutes exactly when the imaginary parts are
/// parallel: `a * b` and `b * a` denote the same quaternion if and only if
/// the cross product of the imaginary 3-vectors is zero. In particular, for
/// nonzero, non-parallel imaginary parts the product does not commute.
pub proof fn lemma_mul_commutes_iff_parallel(a: Quat, b: Quat)
    requires
        q_wf(a),
        q_wf(b),
    ensures
        q_same(q_mul(a, b), q_mul(b, a)) <==> q_im_parallel(a, b),
{
    assert((a.w * b.w - a.x * b.x - a.y * b.y - a.z * b.z) * (b.den * a.den) == (b.w * a.w - b.x
        * a.x - b.y * a.y - b.z * a.z) * (a.den * b.den)) by (nonlinear_arith);
    assert(((a.w * b.x + a.x * b.w + a.y * b.z - a.z * b.y) * (b.den * a.den) == (b.w * a.x + b.x
        * a.w + b.y * a.z - b.z * a.y) * (a.den * b.den)) <==> (a.y * b.z == a.z * b.y))
        by (nonlinear_arith)
        requires
            a.den > 0,
            b.den > 0,
    ;
    assert(((a.w * b.y - a.x * b.z + a.y * b.w + a.z * b.x) * (b.den * a.den) == (b.w * a.y - b.x
        * a.z + b.y * a.w + b.z * a.x) * (a.den * b.den)) <==> (a.z * b.x == a.x * b.z))
        by (nonlinear_arith)
        requires
            a.den > 0,
            b.den > 0,
    ;
    assert(((a.w * b.z + a.x * b.y - a.y * b.x + a.z * b.w) * (b.den * a.den) == (b.w * a.z + b.x
        * a.y - b.y * a.x + b.z * a.w) * (a.den * b.den)) <==> (a.x * b.y == a.y * b.x))
        by (nonlinear_arith)
        requires
            a.den > 0,
            b.den > 0,
    ;
}

/// The quotient is the right-inverse form: `a / b` is defined as `a * b⁻¹`.
pub proof fn lemma_div_is_right_inverse_form(a: Quat, b: Quat)
    ensures
        q_div(a, b) == q_mul(a, q_inverse(b)),
{
}

} // verus!
