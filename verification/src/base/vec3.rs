use vstd::prelude::*;

use crate::base::fixed::{
    fx_add, fx_div, fx_div_spec, fx_mul, fx_mul_spec, fx_neg, fx_sqrt, fx_sqrt_spec, fx_sub,
    lemma_mul_i64_fits, sat64, sat_to_i64, tdiv, FX_ONE,
};

verus! {

/// A 3D point or vector with fixed-point components.
#[derive(Clone, Copy, PartialEq, Eq, Structural, Debug)]
pub struct Vec3 {
    pub x: i64,
    pub y: i64,
    pub z: i64,
}

/// Componentwise saturating sum.
pub open spec fn add_spec(a: Vec3, b: Vec3) -> Vec3 {
    Vec3 { x: sat64(a.x + b.x) as i64, y: sat64(a.y + b.y) as i64, z: sat64(a.z + b.z) as i64 }
}

/// Componentwise saturating difference.
pub open spec fn sub_spec(a: Vec3, b: Vec3) -> Vec3 {
    Vec3 { x: sat64(a.x - b.x) as i64, y: sat64(a.y - b.y) as i64, z: sat64(a.z - b.z) as i64 }
}

/// Componentwise fixed-point product.
pub open spec fn mul_spec(a: Vec3, b: Vec3) -> Vec3 {
    Vec3 {
        x: fx_mul_spec(a.x as int, b.x as int) as i64,
        y: fx_mul_spec(a.y as int, b.y as int) as i64,
        z: fx_mul_spec(a.z as int, b.z as int) as i64,
    }
}

/// The vector scaled by a fixed-point factor.
pub open spec fn scale_spec(a: Vec3, k: int) -> Vec3 {
    Vec3 {
        x: fx_mul_spec(a.x as int, k) as i64,
        y: fx_mul_spec(a.y as int, k) as i64,
        z: fx_mul_spec(a.z as int, k) as i64,
    }
}

/// The negated vector.
pub open spec fn neg_spec(a: Vec3) -> Vec3 {
    Vec3 { x: sat64(-a.x) as i64, y: sat64(-a.y) as i64, z: sat64(-a.z) as i64 }
}

/// The fixed-point dot product: each componentwise product is truncated to
/// scale, the three are summed exactly, and the sum is saturated once.
pub open spec fn dot_spec(a: Vec3, b: Vec3) -> int {
    sat64(
        tdiv(a.x * b.x, FX_ONE as int) + tdiv(a.y * b.y, FX_ONE as int) + tdiv(
            a.z * b.z,
            FX_ONE as int,
        ),
    )
}

/// The fixed-point Euclidean length: the root of the self dot product.
pub open spec fn length_spec(a: Vec3) -> int {
    fx_sqrt_spec(dot_spec(a, a))
}

/// The vector divided componentwise by its length, or zero when the length
/// is zero (`normalize` of the zero vector is the zero vector).
pub open spec fn normalized_spec(a: Vec3) -> Vec3 {
    let len = length_spec(a);
    if len > 0 {
        Vec3 {
            x: fx_div_spec(a.x as int, len) as i64,
            y: fx_div_spec(a.y as int, len) as i64,
            z: fx_div_spec(a.z as int, len) as i64,
        }
    } else {
        Vec3 { x: 0, y: 0, z: 0 }
    }
}

/// The fixed-point cross product.
pub open spec fn cross_spec(a: Vec3, b: Vec3) -> Vec3 {
    Vec3 {
        x: sat64(
            fx_mul_spec(a.y as int, b.z as int) - fx_mul_spec(a.z as int, b.y as int),
        ) as i64,
        y: sat64(
            fx_mul_spec(a.z as int, b.x as int) - fx_mul_spec(a.x as int, b.z as int),
        ) as i64,
        z: sat64(
            fx_mul_spec(a.x as int, b.y as int) - fx_mul_spec(a.y as int, b.x as int),
        ) as i64,
    }
}

impl Vec3 {
    pub fn new(x: i64, y: i64, z: i64) -> (r: Vec3)
        ensures
            r == (Vec3 { x, y, z }),
    {
        Vec3 { x, y, z }
    }

    pub fn new_origin() -> (r: Vec3)
        ensures
            r == (Vec3 { x: 0i64, y: 0i64, z: 0i64 }),
    {
        Vec3 { x: 0, y: 0, z: 0 }
    }

    /// In-place saturating addition.
    pub fn add(&mut self, b: &Vec3)
        ensures
            *final(self) == add_spec(*old(self), *b),
    {
        self.x = fx_add(self.x, b.x);
        self.y = fx_add(self.y, b.y);
        self.z = fx_add(self.z, b.z);
    }

    /// In-place saturating subtraction.
    pub fn sub(&mut self, b: &Vec3)
        ensures
            *final(self) == sub_spec(*old(self), *b),
    {
        self.x = fx_sub(self.x, b.x);
        self.y = fx_sub(self.y, b.y);
        self.z = fx_sub(self.z, b.z);
    }

    /// In-place componentwise fixed-point multiplication.
    pub fn mul(&mut self, b: &Vec3)
        ensures
            *final(self) == mul_spec(*old(self), *b),
    {
        self.x = fx_mul(self.x, b.x);
        self.y = fx_mul(self.y, b.y);
        self.z = fx_mul(self.z, b.z);
    }

    /// The sum as a new vector.
    pub fn plus(&self, b: &Vec3) -> (r: Vec3)
        ensures
            r == add_spec(*self, *b),
    {
        Vec3 { x: fx_add(self.x, b.x), y: fx_add(self.y, b.y), z: fx_add(self.z, b.z) }
    }

    /// The difference as a new vector.
    pub fn minus(&self, b: &Vec3) -> (r: Vec3)
        ensures
            r == sub_spec(*self, *b),
    {
        Vec3 { x: fx_sub(self.x, b.x), y: fx_sub(self.y, b.y), z: fx_sub(self.z, b.z) }
    }

    /// The vector scaled by a fixed-point factor, as a new vector.
    pub fn scaled(&self, k: i64) -> (r: Vec3)
        ensures
            r == scale_spec(*self, k as int),
    {
        Vec3 { x: fx_mul(self.x, k), y: fx_mul(self.y, k), z: fx_mul(self.z, k) }
    }

    /// The vector divided componentwise by a fixed-point scalar.
    pub fn divided_by(&self, k: i64) -> (r: Vec3)
        ensures
            r == (Vec3 {
                x: fx_div_spec(self.x as int, k as int) as i64,
                y: fx_div_spec(self.y as int, k as int) as i64,
                z: fx_div_spec(self.z as int, k as int) as i64,
            }),
    {
        Vec3 { x: fx_div(self.x, k), y: fx_div(self.y, k), z: fx_div(self.z, k) }
    }

    /// The negated vector.
    pub fn negated(&self) -> (r: Vec3)
        ensures
            r == neg_spec(*self),
    {
        Vec3 { x: fx_neg(self.x), y: fx_neg(self.y), z: fx_neg(self.z) }
    }

    /// Scale this vector to unit length; the zero vector stays zero.
    pub fn normalize(&mut self)
        ensures
            *final(self) == normalized_spec(*old(self)),
    {
        let len = self.length();
        if len > 0 {
            self.x = fx_div(self.x, len);
            self.y = fx_div(self.y, len);
            self.z = fx_div(self.z, len);
        } else {
            self.x = 0;
            self.y = 0;
            self.z = 0;
        }
    }

    /// The cross product as a new vector.
    pub fn get_cross(&self, b: &Vec3) -> (r: Vec3)
        ensures
            r == cross_spec(*self, *b),
    {
        Vec3 {
            x: fx_sub(fx_mul(self.y, b.z), fx_mul(self.z, b.y)),
            y: fx_sub(fx_mul(self.z, b.x), fx_mul(self.x, b.z)),
            z: fx_sub(fx_mul(self.x, b.y), fx_mul(self.y, b.x)),
        }
    }

    /// The unit-length copy of this vector; the zero vector yields zero.
    pub fn get_normalized(&self) -> (r: Vec3)
        ensures
            r == normalized_spec(*self),
    {
        let len = self.length();
        if len > 0 {
            Vec3 { x: fx_div(self.x, len), y: fx_div(self.y, len), z: fx_div(self.z, len) }
        } else {
            Vec3 { x: 0, y: 0, z: 0 }
        }
    }

    /// The fixed-point dot product.
    pub fn dot(&self, b: &Vec3) -> (r: i64)
        ensures
            r as int == dot_spec(*self, *b),
    {
        proof {
            lemma_mul_i64_fits(self.x as int, b.x as int);
            lemma_mul_i64_fits(self.y as int, b.y as int);
            lemma_mul_i64_fits(self.z as int, b.z as int);
        }
        let px: i128 = (self.x as i128) * (b.x as i128) / 65536;
        let py: i128 = (self.y as i128) * (b.y as i128) / 65536;
        let pz: i128 = (self.z as i128) * (b.z as i128) / 65536;
        sat_to_i64(px + py + pz)
    }

    /// The fixed-point length.
    pub fn length(&self) -> (r: i64)
        ensures
            r as int == length_spec(*self),
    {
        let d = self.dot(self);
        fx_sqrt(d)
    }

    /// Rotation about an axis, with the sine and cosine of the angle handed
    /// in as fixed-point scalars (the library does no trigonometry itself).
    pub fn get_rotated(&self, sina: i64, cosa: i64, axis: &Vec3) -> (r: Vec3)
        ensures
            r == rotate_spec(*self, sina as int, cosa as int, *axis),
    {
        let ax = axis.get_normalized();
        let cosb = fx_sub(FX_ONE, cosa);

        let col_x = Vec3 {
            x: fx_add(fx_mul(fx_mul(ax.x, ax.x), cosb), cosa),
            y: fx_add(fx_mul(fx_mul(ax.y, ax.x), cosb), fx_mul(ax.z, sina)),
            z: fx_sub(fx_mul(fx_mul(ax.z, ax.x), cosb), fx_mul(ax.y, sina)),
        };
        let col_y = Vec3 {
            x: fx_sub(fx_mul(fx_mul(ax.x, ax.y), cosb), fx_mul(ax.z, sina)),
            y: fx_add(fx_mul(fx_mul(ax.y, ax.y), cosb), cosa),
            z: fx_add(fx_mul(fx_mul(ax.z, ax.y), cosb), fx_mul(ax.x, sina)),
        };
        let col_z = Vec3 {
            x: fx_add(fx_mul(fx_mul(ax.x, ax.z), cosb), fx_mul(ax.y, sina)),
            y: fx_sub(fx_mul(fx_mul(ax.y, ax.z), cosb), fx_mul(ax.x, sina)),
            z: fx_add(fx_mul(fx_mul(ax.z, ax.z), cosb), cosa),
        };
        let rx = col_x.scaled(self.x);
        let ry = col_y.scaled(self.y);
        let rz = col_z.scaled(self.z);
        rx.plus(&ry).plus(&rz)
    }
}

/// The axis-angle rotation matrix applied to `v`, built from the normalized
/// axis and the given sine/cosine, mirroring `get_rotated` exactly.
pub open spec fn rotate_spec(v: Vec3, sina: int, cosa: int, axis: Vec3) -> Vec3 {
    let ax = normalized_spec(axis);
    let cosb = sat64(FX_ONE - cosa);
    let col_x = Vec3 {
        x: sat64(fx_mul_spec(fx_mul_spec(ax.x as int, ax.x as int), cosb) + cosa) as i64,
        y: sat64(
            fx_mul_spec(fx_mul_spec(ax.y as int, ax.x as int), cosb) + fx_mul_spec(
                ax.z as int,
                sina,
            ),
        ) as i64,
        z: sat64(
            fx_mul_spec(fx_mul_spec(ax.z as int, ax.x as int), cosb) - fx_mul_spec(
                ax.y as int,
                sina,
            ),
        ) as i64,
    };
    let col_y = Vec3 {
        x: sat64(
            fx_mul_spec(fx_mul_spec(ax.x as int, ax.y as int), cosb) - fx_mul_spec(
                ax.z as int,
                sina,
            ),
        ) as i64,
        y: sat64(fx_mul_spec(fx_mul_spec(ax.y as int, ax.y as int), cosb) + cosa) as i64,
        z: sat64(
            fx_mul_spec(fx_mul_spec(ax.z as int, ax.y as int), cosb) + fx_mul_spec(
                ax.x as int,
                sina,
            ),
        ) as i64,
    };
    let col_z = Vec3 {
        x: sat64(
            fx_mul_spec(fx_mul_spec(ax.x as int, ax.z as int), cosb) + fx_mul_spec(
                ax.y as int,
                sina,
            ),
        ) as i64,
        y: sat64(
            fx_mul_spec(fx_mul_spec(ax.y as int, ax.z as int), cosb) - fx_mul_spec(
                ax.x as int,
                sina,
            ),
        ) as i64,
        z: sat64(fx_mul_spec(fx_mul_spec(ax.z as int, ax.z as int), cosb) + cosa) as i64,
    };
    add_spec(
        add_spec(scale_spec(col_x, v.x as int), scale_spec(col_y, v.y as int)),
        scale_spec(col_z, v.z as int),
    )
}

/// Given a ray that starts at `r1` and goes through `r2`, the point on the
/// ray at distance `t` from `r1`.
pub fn get_point_on_ray(r1: &Vec3, r2: &Vec3, t: i64) -> (r: Vec3)
    ensures
        r == point_on_ray_spec(*r1, *r2, t as int),
{
    let dir = r2.minus(r1);
    let ratio = fx_div(t, dir.length());
    let mut dir = dir.scaled(ratio);
    dir.add(r1);
    dir
}

/// Mirror of `get_point_on_ray`.
pub open spec fn point_on_ray_spec(r1: Vec3, r2: Vec3, t: int) -> Vec3 {
    let dir = sub_spec(r2, r1);
    let ratio = fx_div_spec(t, length_spec(dir));
    add_spec(scale_spec(dir, ratio), r1)
}

} // verus!
