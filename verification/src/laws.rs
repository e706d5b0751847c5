use vstd::prelude::*;

use crate::matrix::Axis;
use crate::matrix::Mat3View;
use crate::matrix::identity;
use crate::matrix::mat_mul;
use crate::matrix::rotation_matrix;
use crate::matrix::transpose;
use crate::vector::Vec3View;
use crate::vector::translated;

verus! {

/// Multiplying any matrix by the identity, on either side, leaves it
/// unchanged.
pub proof fn lemma_mult_identity(a: Mat3View)
    ensures
        mat_mul(a, identity()) == a,
        mat_mul(identity(), a) == a,
{
}

/// A three-term sum distributes over multiplication from the left.
proof fn lemma_sum3_mul(x: int, y: int, z: int, w: int)
    by (nonlinear_arith)
    ensures
        (x + y + z) * w == x * w + y * w + z * w,
{
}

/// Multiplication distributes over a three-term sum from the right.
proof fn lemma_mul_sum3(x: int, u: int, v: int, w: int)
    by (nonlinear_arith)
    ensures
        x * (u + v + w) == x * u + x * v + x * w,
{
}

/// Multiplication of scalars is associative.
proof fn lemma_mul_assoc_scalar(x: int, y: int, z: int)
    by (nonlinear_arith)
    ensures
        (x * y) * z == x * (y * z),
{
}

/// A product with a zero factor, on either side, is zero.
proof fn lemma_mul_zero(x: int)
    by (nonlinear_arith)
    ensures
        x * 0 == 0,
        0 * x == 0,
{
}

/// Row i of `a` dotted with the columns of `b`, then dotted with a column of
/// `c`, equals row i of `a` dotted with the rows of `b` each dotted with that
/// column of `c`: the single-entry form of associativity of the matrix
/// product.
proof fn lemma_dot_assoc(
    a0: int,
    a1: int,
    a2: int,
    b00: int,
    b01: int,
    b02: int,
    b10: int,
    b11: int,
    b12: int,
    b20: int,
    b21: int,
    b22: int,
    c0: int,
    c1: int,
    c2: int,
)
    ensures
        (a0 * b00 + a1 * b10 + a2 * b20) * c0 + (a0 * b01 + a1 * b11 + a2 * b21) * c1 + (a0 * b02
            + a1 * b12 + a2 * b22) * c2 == a0 * (b00 * c0 + b01 * c1 + b02 * c2) + a1 * (b10 * c0
            + b11 * c1 + b12 * c2) + a2 * (b20 * c0 + b21 * c1 + b22 * c2),
{
    lemma_sum3_mul(a0 * b00, a1 * b10, a2 * b20, c0);
    lemma_sum3_mul(a0 * b01, a1 * b11, a2 * b21, c1);
    lemma_sum3_mul(a0 * b02, a1 * b12, a2 * b22, c2);

    lemma_mul_assoc_scalar(a0, b00, c0);
    lemma_mul_assoc_scalar(a1, b10, c0);
    lemma_mul_assoc_scalar(a2, b20, c0);
    lemma_mul_assoc_scalar(a0, b01, c1);
    lemma_mul_assoc_scalar(a1, b11, c1);
    lemma_mul_assoc_scalar(a2, b21, c1);
    lemma_mul_assoc_scalar(a0, b02, c2);
    lemma_mul_assoc_scalar(a1, b12, c2);
    lemma_mul_assoc_scalar(a2, b22, c2);

    lemma_mul_sum3(a0, b00 * c0, b01 * c1, b02 * c2);
    lemma_mul_sum3(a1, b10 * c0, b11 * c1, b12 * c2);
    lemma_mul_sum3(a2, b20 * c0, b21 * c1, b22 * c2);
}

/// Matrix multiplication is associative: `(a * b) * c == a * (b * c)`.
pub proof fn lemma_mult_assoc(a: Mat3View, b: Mat3View, c: Mat3View)
    ensures
        mat_mul(mat_mul(a, b), c) == mat_mul(a, mat_mul(b, c)),
{
    lemma_dot_assoc(
        a.x0, a.y0, a.z0,
        b.x0, b.y0, b.z0,
        b.x1, b.y1, b.z1,
        b.x2, b.y2, b.z2,
        c.x0, c.x1, c.x2,
    );
    lemma_dot_assoc(
        a.x0, a.y0, a.z0,
        b.x0, b.y0, b.z0,
        b.x1, b.y1, b.z1,
        b.x2, b.y2, b.z2,
        c.y0, c.y1, c.y2,
    );
    lemma_dot_assoc(
        a.x0, a.y0, a.z0,
        b.x0, b.y0, b.z0,
        b.x1, b.y1, b.z1,
        b.x2, b.y2, b.z2,
        c.z0, c.z1, c.z2,
    );
    lemma_dot_assoc(
        a.x1, a.y1, a.z1,
        b.x0, b.y0, b.z0,
        b.x1, b.y1, b.z1,
        b.x2, b.y2, b.z2,
        c.x0, c.x1, c.x2,
    );
    lemma_dot_assoc(
        a.x1, a.y1, a.z1,
        b.x0, b.y0, b.z0,
        b.x1, b.y1, b.z1,
        b.x2, b.y2, b.z2,
        c.y0, c.y1, c.y2,
    );
    lemma_dot_assoc(
        a.x1, a.y1, a.z1,
        b.x0, b.y0, b.z0,
        b.x1, b.y1, b.z1,
        b.x2, b.y2, b.z2,
        c.z0, c.z1, c.z2,
    );
    lemma_dot_assoc(
        a.x2, a.y2, a.z2,
        b.x0, b.y0, b.z0,
        b.x1, b.y1, b.z1,
        b.x2, b.y2, b.z2,
        c.x0, c.x1, c.x2,
    );
    lemma_dot_assoc(
        a.x2, a.y2, a.z2,
        b.x0, b.y0, b.z0,
        b.x1, b.y1, b.z1,
        b.x2, b.y2, b.z2,
        c.y0, c.y1, c.y2,
    );
    lemma_dot_assoc(
        a.x2, a.y2, a.z2,
        b.x0, b.y0, b.z0,
        b.x1, b.y1, b.z1,
        b.x2, b.y2, b.z2,
        c.z0, c.z1, c.z2,
    );
}

/// A rotation matrix is orthogonal: whenever `c` and `s` are the cosine and
/// sine of one angle (so `c * c + s * s == 1`), the transpose of the rotation
/// matrix they generate is its inverse.
pub proof fn lemma_rotation_orthogonal(axis: Axis, c: int, s: int)
    requires
        c * c + s * s == 1,
    ensures
        mat_mul(transpose(rotation_matrix(axis, c, s)), rotation_matrix(axis, c, s)) == identity(),
{
    assert(c * (-s) + s * c == 0 && (-s) * c + c * s == 0 && (-s) * (-s) == s * s)
        by (nonlinear_arith);
    lemma_mul_zero(c);
    lemma_mul_zero(s);
    lemma_mul_zero(-s);
    let r = rotation_matrix(axis, c, s);
    match axis {
        Axis::X => {
            assert(mat_mul(transpose(r), r) == identity());
        },
        Axis::Y => {
            assert(mat_mul(transpose(r), r) == identity());
        },
        Axis::Z => {
            assert(mat_mul(transpose(r), r) == identity());
        },
    }
}

/// Rotating by an angle with cosine/sine `(c1, s1)` and then by one with
/// `(c2, s2)` about the same axis is the single rotation whose cosine and
/// sine are given by the angle-addition formulas — that is, the rotation by
/// the sum of the two angles. The second clause states it for an
/// identity-initialized matrix that the two rotations are applied to in turn.
pub proof fn lemma_rotation_compose(axis: Axis, c1: int, s1: int, c2: int, s2: int)
    ensures
        mat_mul(rotation_matrix(axis, c1, s1), rotation_matrix(axis, c2, s2))
            == rotation_matrix(axis, c1 * c2 - s1 * s2, s1 * c2 + c1 * s2),
        mat_mul(mat_mul(identity(), rotation_matrix(axis, c1, s1)), rotation_matrix(axis, c2, s2))
            == rotation_matrix(axis, c1 * c2 - s1 * s2, s1 * c2 + c1 * s2),
{
    assert((-s1) * s2 == -(s1 * s2) && s1 * (-s2) == -(s1 * s2) && c1 * (-s2) + (-s1) * c2 == -(s1
        * c2 + c1 * s2)) by (nonlinear_arith);
    lemma_mul_zero(c1);
    lemma_mul_zero(s1);
    lemma_mul_zero(-s1);
    lemma_mul_zero(c2);
    lemma_mul_zero(s2);
    lemma_mul_zero(-s2);
    let r1 = rotation_matrix(axis, c1, s1);
    let r2 = rotation_matrix(axis, c2, s2);
    let sum = rotation_matrix(axis, c1 * c2 - s1 * s2, s1 * c2 + c1 * s2);
    match axis {
        Axis::X => {
            assert(mat_mul(r1, r2) == sum);
        },
        Axis::Y => {
            assert(mat_mul(r1, r2) == sum);
        },
        Axis::Z => {
            assert(mat_mul(r1, r2) == sum);
        },
    }
    lemma_mult_identity(r1);
}

/// A zero-angle rotation (cosine 1, sine 0) about any axis is the identity
/// matrix, and multiplying by it leaves any matrix unchanged.
pub proof fn lemma_rotation_zero(m: Mat3View, axis: Axis)
    ensures
        rotation_matrix(axis, 1, 0) == identity(),
        mat_mul(m, rotation_matrix(axis, 1, 0)) == m,
{
    lemma_mult_identity(m);
}

/// Translating a vector by a delta and then by its negation restores the
/// original vector exactly.
pub proof fn lemma_translate_roundtrip(v: Vec3View, dx: int, dy: int, dz: int)
    ensures
        translated(translated(v, dx, dy, dz), -dx, -dy, -dz) == v,
{
}

/// Matrix multiplication is not commutative: there are matrices — for
/// instance quarter-turn rotations about two different axes — whose products
/// in the two orders differ.
pub proof fn lemma_mult_not_commutative()
    ensures
        exists|a: Mat3View, b: Mat3View| mat_mul(a, b) != mat_mul(b, a),
{
    let a = rotation_matrix(Axis::X, 0, 1);
    let b = rotation_matrix(Axis::Z, 0, 1);
    assert(mat_mul(a, b).y0 != mat_mul(b, a).y0);
    assert(mat_mul(a, b) != mat_mul(b, a));
}

} // verus!
