use vstd::prelude::*;

use crate::vector::Vec3;
use crate::vector::Vec3View;

verus! {

/// One of the three principal coordinate directions a rotation is performed
/// around.
#[derive(Debug, Clone, Copy, PartialEq, Eq, Structural)]
pub enum Axis {
    X,
    Y,
    Z,
}

/// Mathematical value of a `Mat3`: nine unbounded integer entries in
/// row-major order (`x` is column 0, `y` column 1, `z` column 2; the digit is
/// the row).
pub ghost struct Mat3View {
    pub x0: int,
    pub y0: int,
    pub z0: int,
    pub x1: int,
    pub y1: int,
    pub z1: int,
    pub x2: int,
    pub y2: int,
    pub z2: int,
}

/// 3 x 3 matrix with exact integer entries, row-major.
#[derive(Debug, PartialEq, Eq, Structural)]
pub struct Mat3 {
    // row 0
    pub x0: i64,
    pub y0: i64,
    pub z0: i64,

    // row 1
    pub x1: i64,
    pub y1: i64,
    pub z1: i64,

    // row 2
    pub x2: i64,
    pub y2: i64,
    pub z2: i64,
}

impl View for Mat3 {
    type V = Mat3View;

    open spec fn view(&self) -> Mat3View {
        Mat3View {
            x0: self.x0 as int,
            y0: self.y0 as int,
            z0: self.z0 as int,
            x1: self.x1 as int,
            y1: self.y1 as int,
            z1: self.z1 as int,
            x2: self.x2 as int,
            y2: self.y2 as int,
            z2: self.z2 as int,
        }
    }
}

/// The 3x3 identity matrix.
pub open spec fn identity() -> Mat3View {
    Mat3View { x0: 1, y0: 0, z0: 0, x1: 0, y1: 1, z1: 0, x2: 0, y2: 0, z2: 1 }
}

/// The matrix product `a * b`: entry (i, j) is row i of `a` dotted with
/// column j of `b`.
pub open spec fn mat_mul(a: Mat3View, b: Mat3View) -> Mat3View {
    Mat3View {
        x0: a.x0 * b.x0 + a.y0 * b.x1 + a.z0 * b.x2,
        y0: a.x0 * b.y0 + a.y0 * b.y1 + a.z0 * b.y2,
        z0: a.x0 * b.z0 + a.y0 * b.z1 + a.z0 * b.z2,
        x1: a.x1 * b.x0 + a.y1 * b.x1 + a.z1 * b.x2,
        y1: a.x1 * b.y0 + a.y1 * b.y1 + a.z1 * b.y2,
        z1: a.x1 * b.z0 + a.y1 * b.z1 + a.z1 * b.z2,
        x2: a.x2 * b.x0 + a.y2 * b.x1 + a.z2 * b.x2,
        y2: a.x2 * b.y0 + a.y2 * b.y1 + a.z2 * b.y2,
        z2: a.x2 * b.z0 + a.y2 * b.z1 + a.z2 * b.z2,
    }
}

/// The transpose of `a`.
pub open spec fn transpose(a: Mat3View) -> Mat3View {
    Mat3View {
        x0: a.x0,
        y0: a.x1,
        z0: a.x2,
        x1: a.y0,
        y1: a.y1,
        z1: a.y2,
        x2: a.z0,
        y2: a.z1,
        z2: a.z2,
    }
}

/// The right-handed rotation matrix about `axis` for an angle whose cosine is
/// `c` and whose sine is `s`.
pub open spec fn rotation_matrix(axis: Axis, c: int, s: int) -> Mat3View {
    match axis {
        Axis::X => Mat3View { x0: 1, y0: 0, z0: 0, x1: 0, y1: c, z1: -s, x2: 0, y2: s, z2: c },
        Axis::Y => Mat3View { x0: c, y0: 0, z0: s, x1: 0, y1: 1, z1: 0, x2: -s, y2: 0, z2: c },
        Axis::Z => Mat3View { x0: c, y0: -s, z0: 0, x1: s, y1: c, z1: 0, x2: 0, y2: 0, z2: 1 },
    }
}

/// The matrix-vector product `a * v`: each output component is the matching
/// row of `a` dotted with `v`.
pub open spec fn mat_vec_mul(a: Mat3View, v: Vec3View) -> Vec3View {
    Vec3View {
        x: a.x0 * v.x + a.y0 * v.y + a.z0 * v.z,
        y: a.x1 * v.x + a.y1 * v.y + a.z1 * v.z,
        z: a.x2 * v.x + a.y2 * v.y + a.z2 * v.z,
    }
}

/// Scalar bound under which a row-by-column dot product of three terms cannot
/// overflow an `i64`.
pub open spec fn scalar_bounded(x: int) -> bool {
    -0x4000_0000 <= x <= 0x4000_0000
}

/// All nine entries of `a` satisfy `scalar_bounded`.
pub open spec fn mat_bounded(a: Mat3View) -> bool {
    &&& scalar_bounded(a.x0)
    &&& scalar_bounded(a.y0)
    &&& scalar_bounded(a.z0)
    &&& scalar_bounded(a.x1)
    &&& scalar_bounded(a.y1)
    &&& scalar_bounded(a.z1)
    &&& scalar_bounded(a.x2)
    &&& scalar_bounded(a.y2)
    &&& scalar_bounded(a.z2)
}

/// All three components of `v` satisfy `scalar_bounded`.
pub open spec fn vec_bounded(v: Vec3View) -> bool {
    &&& scalar_bounded(v.x)
    &&& scalar_bounded(v.y)
    &&& scalar_bounded(v.z)
}

/// Three-term dot product `a0 * b0 + a1 * b1 + a2 * b2`, exact and free of
/// overflow for bounded scalars.
fn dot3(a0: i64, b0: i64, a1: i64, b1: i64, a2: i64, b2: i64) -> (r: i64)
    requires
        scalar_bounded(a0 as int),
        scalar_bounded(b0 as int),
        scalar_bounded(a1 as int),
        scalar_bounded(b1 as int),
        scalar_bounded(a2 as int),
        scalar_bounded(b2 as int),
    ensures
        r == a0 * b0 + a1 * b1 + a2 * b2,
{
    proof {
        assert(-0x1000_0000_0000_0000 <= a0 * b0 <= 0x1000_0000_0000_0000
            && -0x1000_0000_0000_0000 <= a1 * b1 <= 0x1000_0000_0000_0000
            && -0x1000_0000_0000_0000 <= a2 * b2 <= 0x1000_0000_0000_0000)
            by (nonlinear_arith)
            requires
                -0x4000_0000 <= a0 <= 0x4000_0000,
                -0x4000_0000 <= b0 <= 0x4000_0000,
                -0x4000_0000 <= a1 <= 0x4000_0000,
                -0x4000_0000 <= b1 <= 0x4000_0000,
                -0x4000_0000 <= a2 <= 0x4000_0000,
                -0x4000_0000 <= b2 <= 0x4000_0000;
    }
    a0 * b0 + a1 * b1 + a2 * b2
}

impl Mat3 {
    /// mat3 constructor: the nine entries in row-major order.
    pub fn new(
        x0: i64,
        y0: i64,
        z0: i64,
        x1: i64,
        y1: i64,
        z1: i64,
        x2: i64,
        y2: i64,
        z2: i64,
    ) -> (r: Mat3)
        ensures
            r@ == (Mat3View {
                x0: x0 as int,
                y0: y0 as int,
                z0: z0 as int,
                x1: x1 as int,
                y1: y1 as int,
                z1: z1 as int,
                x2: x2 as int,
                y2: y2 as int,
                z2: z2 as int,
            }),
    {
        Mat3 { x0, y0, z0, x1, y1, z1, x2, y2, z2 }
    }

    /// Overwrites all nine entries of `self` with the entries of `a`.
    pub fn copy(&mut self, a: Mat3)
        ensures
            final(self)@ == a@,
    {
        self.x0 = a.x0;
        self.y0 = a.y0;
        self.z0 = a.z0;

        self.x1 = a.x1;
        self.y1 = a.y1;
        self.z1 = a.z1;

        self.x2 = a.x2;
        self.y2 = a.y2;
        self.z2 = a.z2;
    }

    /// Multiplies `self * a` in place: the product is fully computed into a
    /// fresh matrix first, then copied into `self`, so `self` is never
    /// partially overwritten while still being read.
    pub fn mult(&mut self, a: Mat3)
        requires
            mat_bounded(old(self)@),
            mat_bounded(a@),
        ensures
            final(self)@ == mat_mul(old(self)@, a@),
    {
        let r: Mat3 = Mat3::new(
            dot3(self.x0, a.x0, self.y0, a.x1, self.z0, a.x2),
            dot3(self.x0, a.y0, self.y0, a.y1, self.z0, a.y2),
            dot3(self.x0, a.z0, self.y0, a.z1, self.z0, a.z2),
            dot3(self.x1, a.x0, self.y1, a.x1, self.z1, a.x2),
            dot3(self.x1, a.y0, self.y1, a.y1, self.z1, a.y2),
            dot3(self.x1, a.z0, self.y1, a.z1, self.z1, a.z2),
            dot3(self.x2, a.x0, self.y2, a.x1, self.z2, a.x2),
            dot3(self.x2, a.y0, self.y2, a.y1, self.z2, a.y2),
            dot3(self.x2, a.z0, self.y2, a.z1, self.z2, a.z2),
        );

        self.copy(r);
    }

    /// Builds the rotation matrix about `axis` for an angle whose cosine is
    /// `c` and whose sine is `s`, and multiplies `self` by it in place
    /// (`self := self * R`).
    pub fn rotation(&mut self, axis: Axis, c: i64, s: i64)
        requires
            mat_bounded(old(self)@),
            scalar_bounded(c as int),
            scalar_bounded(s as int),
        ensures
            final(self)@ == mat_mul(old(self)@, rotation_matrix(axis, c as int, s as int)),
    {
        let r: Mat3 = match axis {
            Axis::X => Mat3::new(1, 0, 0, 0, c, -s, 0, s, c),
            Axis::Y => Mat3::new(c, 0, s, 0, 1, 0, -s, 0, c),
            Axis::Z => Mat3::new(c, -s, 0, s, c, 0, 0, 0, 1),
        };

        self.mult(r);
    }

    /// Matrix * vector product: a new vector whose components are the rows of
    /// `self` dotted with `v`. Neither operand is mutated; both are consumed.
    pub fn apply(self, v: Vec3) -> (r: Vec3)
        requires
            mat_bounded(self@),
            vec_bounded(v@),
        ensures
            r@ == mat_vec_mul(self@, v@),
    {
        Vec3::new(
            dot3(self.x0, v.x, self.y0, v.y, self.z0, v.z),
            dot3(self.x1, v.x, self.y1, v.y, self.z1, v.z),
            dot3(self.x2, v.x, self.y2, v.y, self.z2, v.z),
        )
    }
}

} // verus!
