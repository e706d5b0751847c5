use vstd::prelude::*;

verus! {

/// Mathematical value of a `Vec3`: three unbounded integer components.
pub ghost struct Vec3View {
    pub x: int,
    pub y: int,
    pub z: int,
}

/// 3 x 1 vector with exact integer components.
#[derive(Debug, PartialEq, Eq, Structural)]
pub struct Vec3 {
    pub x: i64,
    pub y: i64,
    pub z: i64,
}

impl View for Vec3 {
    type V = Vec3View;

    open spec fn view(&self) -> Vec3View {
        Vec3View { x: self.x as int, y: self.y as int, z: self.z as int }
    }
}

/// The component-wise translation of `v` by `(dx, dy, dz)`.
pub open spec fn translated(v: Vec3View, dx: int, dy: int, dz: int) -> Vec3View {
    Vec3View { x: v.x + dx, y: v.y + dy, z: v.z + dz }
}

impl Vec3 {
    /// vec3 constructor
    pub fn new(x: i64, y: i64, z: i64) -> (r: Vec3)
        ensures
            r@ == (Vec3View { x: x as int, y: y as int, z: z as int }),
    {
        Vec3 { x, y, z }
    }

    /// Adds the three deltas to the respective components in place.
    pub fn translate(&mut self, xt: i64, yt: i64, zt: i64)
        requires
            i64::MIN <= old(self)@.x + xt <= i64::MAX,
            i64::MIN <= old(self)@.y + yt <= i64::MAX,
            i64::MIN <= old(self)@.z + zt <= i64::MAX,
        ensures
            final(self)@ == translated(old(self)@, xt as int, yt as int, zt as int),
    {
        self.x = self.x + xt;
        self.y = self.y + yt;
        self.z = self.z + zt;
    }
}

} // verus!
