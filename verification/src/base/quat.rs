use vstd::prelude::*;

use crate::base::vec3::{add_spec, cross_spec, scale_spec, Vec3};

verus! {

/// A rotation, stored as a quaternion with fixed-point components
/// (`w` the scalar part, `x, y, z` the vector part). A unit quaternion
/// (`w*w + x*x + y*y + z*z == FX_ONE`) represents a rotation; `rotate_vector`
/// applies it. The identity rotation is `(FX_ONE, 0, 0, 0)`.
#[derive(Clone, Copy, PartialEq, Eq, Structural, Debug)]
pub struct Quat {
    pub w: i64,
    pub x: i64,
    pub y: i64,
    pub z: i64,
}

/// Mirror of `Quat::rotate_vector`: for a unit quaternion `q` this is the
/// standard expansion of `q * v * conj(q)`, namely
/// `v + 2 w (qv x v) + 2 (qv x (qv x v))` with `qv` the vector part,
/// computed here as `v + w*t + qv x t` where `t = 2 (qv x v)`.
pub open spec fn quat_rotate_spec(q: Quat, v: Vec3) -> Vec3 {
    let qv = Vec3 { x: q.x, y: q.y, z: q.z };
    let t = scale_spec(cross_spec(qv, v), 2 * 65536int);
    add_spec(add_spec(v, scale_spec(t, q.w as int)), cross_spec(qv, t))
}

impl Quat {
    pub fn new(w: i64, x: i64, y: i64, z: i64) -> (q: Quat)
        ensures
            q == (Quat { w, x, y, z }),
    {
        Quat { w, x, y, z }
    }

    /// Apply this rotation to a vector.
    pub fn rotate_vector(&self, v: &Vec3) -> (r: Vec3)
        ensures
            r == quat_rotate_spec(*self, *v),
    {
        let qv = Vec3 { x: self.x, y: self.y, z: self.z };
        let t = qv.get_cross(v).scaled(2 * crate::base::fixed::FX_ONE);
        v.plus(&t.scaled(self.w)).plus(&qv.get_cross(&t))
    }
}

} // verus!
