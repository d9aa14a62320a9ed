use vstd::prelude::*;

use crate::base::fixed::{
    fx_add, fx_div, fx_div_spec, fx_mul, fx_mul_spec, fx_neg, fx_sqrt, fx_sqrt_spec, fx_sub,
    is_sqrt_floor, lemma_mul_i64_fits, lemma_sqrt_floor_exists, lemma_sqrt_floor_unique, sat64,
    sat_to_i64, sqrt_floor, tdiv, FX_MIN, FX_ONE,
};
use crate::base::vec3::{dot_spec, sub_spec, Vec3};
use crate::scene::scene::Sphere;
use crate::util::maths::within;

verus! {

/// A small positive distance (about 0.001 in world units) used as the lower
/// window bound of secondary rays, so that a ray leaving a surface does not
/// immediately re-hit it.
pub const EPSILON: i64 = 66;

/// Mirror of `intersect_ray_sphere`: the two roots of the quadratic obtained
/// by substituting the parametric ray into the sphere's implicit equation,
/// or the sentinel pair `(FX_MIN, FX_MIN)` ("minus infinity" twice) when the
/// discriminant is negative.
pub open spec fn intersect_spec(origin: Vec3, direction: Vec3, sphere: Sphere) -> (int, int) {
    let c0 = sub_spec(origin, sphere.center);
    let a = dot_spec(direction, direction);
    let b = sat64(2 * dot_spec(c0, direction));
    let c = sat64(
        dot_spec(c0, c0) - fx_mul_spec(sphere.radius as int, sphere.radius as int),
    );
    let disc = discriminant_spec(a, b, c);
    if disc < 0 {
        (FX_MIN as int, FX_MIN as int)
    } else {
        let sq = fx_sqrt_spec(disc);
        let two_a = sat64(a + a);
        let t1 = fx_div_spec(sat64(sat64(-b) + sq), two_a);
        let t2 = fx_div_spec(sat64(sat64(-b) - sq), two_a);
        (t1, t2)
    }
}

/// The discriminant `b*b - 4*a*c`, with each product truncated to scale and
/// the difference saturated.
pub open spec fn discriminant_spec(a: int, b: int, c: int) -> int {
    sat64(tdiv(b * b, 65536) - 4 * tdiv(a * c, 65536))
}

/// Returns the two 'distances' along the ray at which it intersects the
/// sphere, both roots of the quadratic. A negative discriminant yields the
/// sentinel pair `(FX_MIN, FX_MIN)`. The sentinel coincides with "the line
/// misses the sphere" only short of saturation: with coordinates near the
/// representable limits a genuine root can itself saturate to `FX_MIN`, so
/// callers distinguish "no intersection" by checking roots against their
/// own `[t_min, t_max]` window, never by testing the sentinel itself.
pub fn intersect_ray_sphere(origin: &Vec3, direction: &Vec3, sphere: &Sphere) -> (r: (i64, i64))
    ensures
        (r.0 as int, r.1 as int) == intersect_spec(*origin, *direction, *sphere),
{
    let c0 = origin.minus(&sphere.center);
    let a = direction.dot(direction);
    let bd = c0.dot(direction);
    let b = fx_add(bd, bd);
    let c = fx_sub(c0.dot(&c0), fx_mul(sphere.radius, sphere.radius));

    proof {
        lemma_mul_i64_fits(b as int, b as int);
        lemma_mul_i64_fits(a as int, c as int);
    }
    let bb: i128 = (b as i128) * (b as i128) / 65536;
    let ac: i128 = (a as i128) * (c as i128) / 65536;
    let disc = sat_to_i64(bb - 4 * ac);

    if disc < 0 {
        return (FX_MIN, FX_MIN);
    }
    let sq = fx_sqrt(disc);
    let two_a = fx_add(a, a);
    let nb = fx_neg(b);
    let t1 = fx_div(fx_add(nb, sq), two_a);
    let t2 = fx_div(fx_sub(nb, sq), two_a);
    (t1, t2)
}

/// The discriminant that `intersect_spec` computes for this ray and sphere.
pub open spec fn ray_sphere_discriminant_spec(origin: Vec3, direction: Vec3, sphere: Sphere) -> int {
    let c0 = sub_spec(origin, sphere.center);
    let a = dot_spec(direction, direction);
    let b = sat64(2 * dot_spec(c0, direction));
    let c = sat64(
        dot_spec(c0, c0) - fx_mul_spec(sphere.radius as int, sphere.radius as int),
    );
    discriminant_spec(a, b, c)
}

/// A ray tangent to a sphere — the distance from the center to the ray
/// exactly the radius, so the discriminant comes to zero — yields two equal
/// roots.
pub proof fn lemma_tangent_ray_equal_roots(origin: Vec3, direction: Vec3, sphere: Sphere)
    requires
        ray_sphere_discriminant_spec(origin, direction, sphere) == 0,
    ensures
        intersect_spec(origin, direction, sphere).0 == intersect_spec(origin, direction, sphere).1,
{
}

/// A ray through a sphere's center, with a unit direction, meets it at two
/// roots symmetric about the projection of the center onto the ray — each
/// equal to the distance to the center plus or minus the radius.
///
/// `k` is the distance from the origin to the center along the ray. The
/// hypotheses pin the exact-arithmetic inputs: the direction has unit
/// fixed-point length, the center lies on the ray at distance `k`, and `k`
/// and the radius are small enough, and their squares exactly representable
/// at scale, that no fixed-point operation rounds or saturates. On inputs
/// where the arithmetic rounds (a squared length not divisible by the
/// scale), the roots can be off by one least-significant fixed-point digit.
pub proof fn lemma_ray_through_center_roots(origin: Vec3, direction: Vec3, sphere: Sphere, k: int)
    requires
        dot_spec(direction, direction) == FX_ONE as int,
        dot_spec(sub_spec(origin, sphere.center), direction) == -k,
        dot_spec(sub_spec(origin, sphere.center), sub_spec(origin, sphere.center)) == tdiv(
            k * k,
            FX_ONE as int,
        ),
        (k * k) % (FX_ONE as int) == 0,
        ((sphere.radius as int) * (sphere.radius as int)) % (FX_ONE as int) == 0,
        0 <= k <= 0x8_0000_0000,
        0 <= sphere.radius <= 0x8_0000_0000,
    ensures
        intersect_spec(origin, direction, sphere) == (
            k + sphere.radius as int,
            k - sphere.radius as int,
        ),
        intersect_spec(origin, direction, sphere).0 + intersect_spec(origin, direction, sphere).1
            == 2 * k,
{
    let s = FX_ONE as int;
    let r = sphere.radius as int;
    let c0 = sub_spec(origin, sphere.center);
    let a = dot_spec(direction, direction);
    let b = sat64(2 * dot_spec(c0, direction));
    assert(b == -2 * k);
    let qk = tdiv(k * k, s);
    let qr = tdiv(r * r, s);
    assert(k * k >= 0) by (nonlinear_arith)
        requires
            k >= 0;
    assert(r * r >= 0) by (nonlinear_arith)
        requires
            r >= 0;
    assert(qk == (k * k) / s);
    assert(qr == (r * r) / s);
    assert(k * k <= 0x40_0000_0000_0000_0000) by (nonlinear_arith)
        requires
            0 <= k <= 0x8_0000_0000;
    assert(r * r <= 0x40_0000_0000_0000_0000) by (nonlinear_arith)
        requires
            0 <= r <= 0x8_0000_0000;
    assert(0 <= qk) by {
        vstd::arithmetic::div_mod::lemma_div_pos_is_pos(k * k, s);
    }
    assert(qk <= 0x400_0000_0000_0000int) by {
        vstd::arithmetic::div_mod::lemma_fundamental_div_mod(k * k, s);
        vstd::arithmetic::div_mod::lemma_mod_bound(k * k, s);
        assert(k * k == s * qk + (k * k) % s);
        assert(s * qk == 65536 * qk);
        assert(65536 * qk <= 0x40_0000_0000_0000_0000);
    }
    assert(0 <= qr) by {
        vstd::arithmetic::div_mod::lemma_div_pos_is_pos(r * r, s);
    }
    assert(qr <= 0x400_0000_0000_0000int) by {
        vstd::arithmetic::div_mod::lemma_fundamental_div_mod(r * r, s);
        vstd::arithmetic::div_mod::lemma_mod_bound(r * r, s);
        assert(r * r == s * qr + (r * r) % s);
        assert(s * qr == 65536 * qr);
        assert(65536 * qr <= 0x40_0000_0000_0000_0000);
    }
    let c = sat64(dot_spec(c0, c0) - fx_mul_spec(r, r));
    assert(fx_mul_spec(r, r) == qr);
    assert(c == qk - qr);

    // The discriminant collapses to 4 * r * r at scale.
    assert(tdiv(b * b, s) == 4 * qk) by (nonlinear_arith)
        requires
            b == -2 * k,
            qk == (k * k) / s,
            (k * k) % s == 0,
            k >= 0,
            s == 65536;
    assert(tdiv(a * c, s) == c) by (nonlinear_arith)
        requires
            a == s,
            s == 65536,
            -0x2000_0000_0000_0000 <= c <= 0x2000_0000_0000_0000;
    let disc = discriminant_spec(a, b, c);
    assert(disc == 4 * qr);

    // Its fixed-point square root is exactly 2 * r.
    let sq = fx_sqrt_spec(disc);
    if disc == 0 {
        assert(qr == 0);
        assert(r * r == qr * s + (r * r) % s) by (nonlinear_arith)
            requires
                qr == (r * r) / s,
                s == 65536;
        assert(r == 0) by (nonlinear_arith)
            requires
                r * r == 0,
                r >= 0;
        assert(sq == 2 * r);
    } else {
        assert(disc * s == 4 * (r * r)) by (nonlinear_arith)
            requires
                disc == 4 * qr,
                qr == (r * r) / s,
                (r * r) % s == 0,
                r * r >= 0,
                s == 65536;
        assert(is_sqrt_floor(4 * (r * r), 2 * r)) by (nonlinear_arith)
            requires
                r >= 0;
        lemma_sqrt_floor_exists(disc * s);
        lemma_sqrt_floor_unique(disc * s, 2 * r, sqrt_floor(disc * s));
        assert(sq == 2 * r);
    }

    // And the two roots divide out exactly.
    let two_a = sat64(a + a);
    assert(two_a == 2 * s);
    assert(sat64(sat64(-b) + sq) == 2 * k + 2 * r);
    assert(sat64(sat64(-b) - sq) == 2 * k - 2 * r);
    assert(tdiv((2 * k + 2 * r) * s, 2 * s) == k + r) by (nonlinear_arith)
        requires
            k >= 0,
            r >= 0,
            s == 65536;
    assert(tdiv((2 * k - 2 * r) * s, 2 * s) == k - r) by (nonlinear_arith)
        requires
            k >= 0,
            r >= 0,
            s == 65536;
    assert(fx_div_spec(2 * k + 2 * r, 2 * s) == k + r);
    assert(fx_div_spec(2 * k - 2 * r, 2 * s) == k - r);
}

/// Is `t` inside the inclusive window `[t_min, t_max]`?
pub open spec fn in_window(t: int, t_min: int, t_max: int) -> bool {
    t_min <= t && t <= t_max
}

/// Neither root of the ray against this sphere lies inside the window.
pub open spec fn no_hit_in_window(
    origin: Vec3,
    direction: Vec3,
    sphere: Sphere,
    t_min: int,
    t_max: int,
) -> bool {
    let roots = intersect_spec(origin, direction, sphere);
    !in_window(roots.0, t_min, t_max) && !in_window(roots.1, t_min, t_max)
}

/// Every root of this sphere that lies inside the window is at least `t`.
pub open spec fn roots_in_window_at_least(
    origin: Vec3,
    direction: Vec3,
    sphere: Sphere,
    t_min: int,
    t_max: int,
    t: int,
) -> bool {
    let roots = intersect_spec(origin, direction, sphere);
    &&& in_window(roots.0, t_min, t_max) ==> roots.0 >= t
    &&& in_window(roots.1, t_min, t_max) ==> roots.1 >= t
}

/// Every root of this sphere that lies inside the window is above `t`.
pub open spec fn roots_in_window_above(
    origin: Vec3,
    direction: Vec3,
    sphere: Sphere,
    t_min: int,
    t_max: int,
    t: int,
) -> bool {
    let roots = intersect_spec(origin, direction, sphere);
    &&& in_window(roots.0, t_min, t_max) ==> roots.0 > t
    &&& in_window(roots.1, t_min, t_max) ==> roots.1 > t
}

/// `t` is a root of the ray against this sphere and lies inside the window.
pub open spec fn is_hit_in_window(
    origin: Vec3,
    direction: Vec3,
    sphere: Sphere,
    t_min: int,
    t_max: int,
    t: int,
) -> bool {
    let roots = intersect_spec(origin, direction, sphere);
    (t == roots.0 || t == roots.1) && in_window(t, t_min, t_max)
}

/// The exec result of the closest-hit scan, lifted to mathematical integers.
pub open spec fn hit_as_spec(r: Option<(i64, usize)>) -> Option<(int, int)> {
    match r {
        None => None,
        Some(pair) => Some((pair.0 as int, pair.1 as int)),
    }
}

/// Mirror of the scan in `get_closest_ray_sphere_intersection` over the
/// first `k` spheres: fold each sphere's two roots into the running best
/// `(t, index)`, keeping a root only when it lies in the window and is
/// strictly smaller than the best so far.
pub open spec fn closest_upto_spec(
    origin: Vec3,
    direction: Vec3,
    t_min: int,
    t_max: int,
    spheres: Seq<Sphere>,
    ignore: int,
    k: int,
) -> Option<(int, int)>
    decreases k,
{
    if k <= 0 {
        None
    } else {
        let prev = closest_upto_spec(origin, direction, t_min, t_max, spheres, ignore, k - 1);
        if k - 1 == ignore {
            prev
        } else {
            let roots = intersect_spec(origin, direction, spheres[k - 1]);
            let st1 = if in_window(roots.0, t_min, t_max) && (match prev {
                None => true,
                Some(pr) => roots.0 < pr.0,
            }) {
                Some((roots.0, k - 1))
            } else {
                prev
            };
            if in_window(roots.1, t_min, t_max) && (match st1 {
                None => true,
                Some(pr) => roots.1 < pr.0,
            }) {
                Some((roots.1, k - 1))
            } else {
                st1
            }
        }
    }
}

/// Mirror of `get_closest_ray_sphere_intersection` over the whole list.
pub open spec fn closest_hit_spec(
    origin: Vec3,
    direction: Vec3,
    t_min: int,
    t_max: int,
    spheres: Seq<Sphere>,
    ignore: int,
) -> Option<(int, int)> {
    closest_upto_spec(origin, direction, t_min, t_max, spheres, ignore, spheres.len() as int)
}

/// Whatever `closest_upto_spec` returns names an in-window root of an
/// unskipped sphere below `k`.
pub proof fn lemma_closest_upto_is_hit(
    origin: Vec3,
    direction: Vec3,
    t_min: int,
    t_max: int,
    spheres: Seq<Sphere>,
    ignore: int,
    k: int,
)
    requires
        k <= spheres.len(),
    ensures
        match closest_upto_spec(origin, direction, t_min, t_max, spheres, ignore, k) {
            None => true,
            Some(pr) => 0 <= pr.1 < k && pr.1 != ignore && is_hit_in_window(
                origin,
                direction,
                spheres[pr.1],
                t_min,
                t_max,
                pr.0,
            ),
        },
    decreases k,
{
    if k > 0 {
        lemma_closest_upto_is_hit(origin, direction, t_min, t_max, spheres, ignore, k - 1);
    }
}

/// Linear scan for the closest intersection of the ray with any sphere,
/// inside the inclusive `[t_min, t_max]` window, skipping the sphere at
/// `sphere_ignore_index` (pass a negative index to skip none).
///
/// Returns `Some((t, i))` with `t` the globally smallest in-window root and
/// `i` the index of its sphere — ties broken by the lowest index, since the
/// scan is first-come for equal `t` — or `None` when no sphere has a root in
/// the window.
pub fn get_closest_ray_sphere_intersection(
    origin: &Vec3,
    direction: &Vec3,
    t_min: i64,
    t_max: i64,
    spheres: &Vec<Sphere>,
    sphere_ignore_index: i32,
) -> (r: Option<(i64, usize)>)
    requires
        spheres@.len() <= i32::MAX,
    ensures
        hit_as_spec(r) == closest_hit_spec(
            *origin,
            *direction,
            t_min as int,
            t_max as int,
            spheres@,
            sphere_ignore_index as int,
        ),
        match r {
            None => forall|j: int|
                0 <= j < spheres@.len() && j != sphere_ignore_index as int
                    ==> no_hit_in_window(
                    *origin,
                    *direction,
                    #[trigger] spheres@[j],
                    t_min as int,
                    t_max as int,
                ),
            Some(pair) => {
                &&& 0 <= (pair.1 as int) < spheres@.len()
                &&& pair.1 as int != sphere_ignore_index as int
                &&& is_hit_in_window(
                    *origin,
                    *direction,
                    spheres@[pair.1 as int],
                    t_min as int,
                    t_max as int,
                    pair.0 as int,
                )
                &&& forall|j: int|
                    0 <= j < spheres@.len() && j != sphere_ignore_index as int
                        ==> roots_in_window_at_least(
                        *origin,
                        *direction,
                        #[trigger] spheres@[j],
                        t_min as int,
                        t_max as int,
                        pair.0 as int,
                    )
                &&& forall|j: int|
                    0 <= j < (pair.1 as int) && j != sphere_ignore_index as int
                        ==> roots_in_window_above(
                        *origin,
                        *direction,
                        #[trigger] spheres@[j],
                        t_min as int,
                        t_max as int,
                        pair.0 as int,
                    )
            },
        },
{
    let mut result: Option<(i64, usize)> = None;
    let mut k: usize = 0;
    while k < spheres.len()
        invariant
            spheres@.len() <= i32::MAX,
            0 <= k <= spheres@.len(),
            hit_as_spec(result) == closest_upto_spec(
                *origin,
                *direction,
                t_min as int,
                t_max as int,
                spheres@,
                sphere_ignore_index as int,
                k as int,
            ),
            match result {
                None => forall|j: int|
                    0 <= j < k && j != sphere_ignore_index as int
                        ==> no_hit_in_window(
                        *origin,
                        *direction,
                        #[trigger] spheres@[j],
                        t_min as int,
                        t_max as int,
                    ),
                Some(pair) => {
                    &&& 0 <= (pair.1 as int) < k
                    &&& pair.1 as int != sphere_ignore_index as int
                    &&& is_hit_in_window(
                        *origin,
                        *direction,
                        spheres@[pair.1 as int],
                        t_min as int,
                        t_max as int,
                        pair.0 as int,
                    )
                    &&& forall|j: int|
                        0 <= j < k && j != sphere_ignore_index as int
                            ==> roots_in_window_at_least(
                            *origin,
                            *direction,
                            #[trigger] spheres@[j],
                            t_min as int,
                            t_max as int,
                            pair.0 as int,
                        )
                    &&& forall|j: int|
                        0 <= j < (pair.1 as int) && j != sphere_ignore_index as int
                            ==> roots_in_window_above(
                            *origin,
                            *direction,
                            #[trigger] spheres@[j],
                            t_min as int,
                            t_max as int,
                            pair.0 as int,
                        )
                },
            },
        decreases spheres@.len() - k,
    {
        if !(sphere_ignore_index >= 0 && k as i32 == sphere_ignore_index) {
            let (t1, t2) = intersect_ray_sphere(origin, direction, &spheres[k]);
            let better1 = match result {
                None => true,
                Some(pair) => t1 < pair.0,
            };
            if within(t1, t_min, t_max) && better1 {
                result = Some((t1, k));
            }
            let better2 = match result {
                None => true,
                Some(pair) => t2 < pair.0,
            };
            if within(t2, t_min, t_max) && better2 {
                result = Some((t2, k));
            }
        }
        k = k + 1;
    }
    result
}

} // verus!
