use vstd::prelude::*;

use crate::base::fixed::{
    fx_add, fx_div, fx_div_spec, fx_mul, fx_mul_spec, fx_pow, fx_pow_spec, fx_sub,
    lemma_fx_div_nonneg, lemma_fx_mul_nonneg, lemma_fx_pow_nonneg, lemma_fx_sqrt_nonneg, sat64,
    FX_MAX, FX_ONE,
};
use crate::base::vec3::{dot_spec, length_spec, scale_spec, sub_spec, Vec3};
use crate::scene::intersect::{
    closest_hit_spec, get_closest_ray_sphere_intersection, lemma_closest_upto_is_hit, EPSILON,
};
use crate::scene::scene::{light_valid, scene_valid, sphere_valid, Light, Scene};

verus! {

/// Mirror of `reflect_ray`: `r` mirrored about the normal `n`,
/// `2 n (n . r) - r`.
pub open spec fn reflect_spec(r: Vec3, n: Vec3) -> Vec3 {
    sub_spec(scale_spec(n, sat64(2 * dot_spec(n, r))), r)
}

/// The ray `r` mirror-reflected about the surface normal `n`.
pub fn reflect_ray(r: &Vec3, n: &Vec3) -> (out: Vec3)
    ensures
        out == reflect_spec(*r, *n),
{
    let d = n.dot(r);
    let k = fx_add(d, d);
    n.scaled(k).minus(r)
}

/// The term one non-ambient light adds to the total intensity: the diffuse
/// and specular contributions, scaled by the shadow attenuation. `l` is the
/// light vector, `t_max` the shadow-ray window bound, `factor` the light's
/// intensity.
///
/// Shadow policy: the light is attenuated by the occluder's transparency
/// (an opaque occluder, `transparency == 0`, blocks the light entirely).
pub open spec fn shaded_term_spec(
    scene: Scene,
    p: Vec3,
    n: Vec3,
    v: Vec3,
    s: int,
    l: Vec3,
    t_max: int,
    factor: int,
) -> int {
    let shadow = closest_hit_spec(p, l, EPSILON as int, t_max, scene.spheres@, -1);
    let attenuation = match shadow {
        Some(pr) => sat64(FX_ONE - scene.spheres@[pr.1].transparency),
        None => 0,
    };
    if attenuation == FX_ONE as int {
        0
    } else {
        let n_dot_l = dot_spec(n, l);
        let diffuse = if n_dot_l > 0 {
            fx_div_spec(
                fx_mul_spec(factor, n_dot_l),
                fx_mul_spec(length_spec(n), length_spec(l)),
            )
        } else {
            0
        };
        let specular = if s >= 0 {
            let refl = reflect_spec(l, n);
            let r_dot_v = dot_spec(refl, v);
            if r_dot_v > 0 {
                fx_mul_spec(
                    factor,
                    fx_pow_spec(
                        fx_div_spec(
                            r_dot_v,
                            fx_mul_spec(length_spec(refl), length_spec(v)),
                        ),
                        s as nat,
                    ),
                )
            } else {
                0
            }
        } else {
            0
        };
        fx_mul_spec(sat64(diffuse + specular), sat64(FX_ONE - attenuation))
    }
}

/// The term one light (of any kind) adds to the total intensity.
pub open spec fn light_term_spec(scene: Scene, p: Vec3, n: Vec3, v: Vec3, s: int, light: Light) -> int {
    match light {
        Light::Ambient { intensity } => intensity as int,
        Light::Point { intensity, position } => shaded_term_spec(
            scene,
            p,
            n,
            v,
            s,
            sub_spec(position, p),
            FX_ONE as int,
            intensity as int,
        ),
        Light::Directional { intensity, direction } => shaded_term_spec(
            scene,
            p,
            n,
            v,
            s,
            direction,
            FX_MAX as int,
            intensity as int,
        ),
    }
}

/// The total intensity over the first `k` lights, folded with saturating
/// addition exactly as the executable loop accumulates it.
pub open spec fn lighting_upto_spec(
    scene: Scene,
    p: Vec3,
    n: Vec3,
    v: Vec3,
    s: int,
    k: int,
) -> int
    decreases k,
{
    if k <= 0 {
        0
    } else {
        sat64(
            lighting_upto_spec(scene, p, n, v, s, k - 1) + light_term_spec(
                scene,
                p,
                n,
                v,
                s,
                scene.lights@[k - 1],
            ),
        )
    }
}

/// Mirror of `compute_lighting`: the total intensity over every light.
pub open spec fn lighting_spec(scene: Scene, p: Vec3, n: Vec3, v: Vec3, s: int) -> int {
    lighting_upto_spec(scene, p, n, v, s, scene.lights@.len() as int)
}

/// A valid light's term is never negative: the diffuse and specular parts
/// only ever add non-negative amounts, and the shadow attenuation factor of
/// a valid occluder lies in `[0, 1]`.
pub proof fn lemma_light_term_nonneg(scene: Scene, p: Vec3, n: Vec3, v: Vec3, s: int, light: Light)
    requires
        scene_valid(scene),
        light_valid(light),
    ensures
        light_term_spec(scene, p, n, v, s, light) >= 0,
{
    match light {
        Light::Ambient { intensity } => {
        },
        Light::Point { intensity, position } => {
            lemma_shaded_term_nonneg(
                scene,
                p,
                n,
                v,
                s,
                sub_spec(position, p),
                FX_ONE as int,
                intensity as int,
            );
        },
        Light::Directional { intensity, direction } => {
            lemma_shaded_term_nonneg(scene, p, n, v, s, direction, FX_MAX as int, intensity as int);
        },
    }
}

/// The shadowed diffuse-plus-specular term is non-negative for a valid scene
/// and a non-negative light intensity.
pub proof fn lemma_shaded_term_nonneg(
    scene: Scene,
    p: Vec3,
    n: Vec3,
    v: Vec3,
    s: int,
    l: Vec3,
    t_max: int,
    factor: int,
)
    requires
        scene_valid(scene),
        factor >= 0,
    ensures
        shaded_term_spec(scene, p, n, v, s, l, t_max, factor) >= 0,
{
    let shadow = closest_hit_spec(p, l, EPSILON as int, t_max, scene.spheres@, -1);
    lemma_closest_upto_is_hit(
        p,
        l,
        EPSILON as int,
        t_max,
        scene.spheres@,
        -1,
        scene.spheres@.len() as int,
    );
    let attenuation: int = match shadow {
        Some(pr) => sat64(FX_ONE - scene.spheres@[pr.1].transparency),
        None => 0,
    };
    if shadow is Some {
        let pr = shadow->Some_0;
        assert(sphere_valid(scene.spheres@[pr.1]));
    }
    assert(0 <= attenuation <= FX_ONE as int);
    if attenuation != FX_ONE as int {
        let n_dot_l = dot_spec(n, l);
        lemma_fx_sqrt_nonneg(dot_spec(n, n));
        lemma_fx_sqrt_nonneg(dot_spec(l, l));
        lemma_fx_sqrt_nonneg(dot_spec(v, v));
        lemma_fx_mul_nonneg(length_spec(n), length_spec(l));
        if n_dot_l > 0 {
            lemma_fx_mul_nonneg(factor, n_dot_l);
            lemma_fx_div_nonneg(
                fx_mul_spec(factor, n_dot_l),
                fx_mul_spec(length_spec(n), length_spec(l)),
            );
        }
        if s >= 0 {
            let refl = reflect_spec(l, n);
            let r_dot_v = dot_spec(refl, v);
            if r_dot_v > 0 {
                lemma_fx_sqrt_nonneg(dot_spec(refl, refl));
                lemma_fx_mul_nonneg(length_spec(refl), length_spec(v));
                lemma_fx_div_nonneg(
                    r_dot_v,
                    fx_mul_spec(length_spec(refl), length_spec(v)),
                );
                lemma_fx_pow_nonneg(
                    fx_div_spec(r_dot_v, fx_mul_spec(length_spec(refl), length_spec(v))),
                    s as nat,
                );
                lemma_fx_mul_nonneg(
                    factor,
                    fx_pow_spec(
                        fx_div_spec(r_dot_v, fx_mul_spec(length_spec(refl), length_spec(v))),
                        s as nat,
                    ),
                );
            }
        }
    }
}

/// Shading is non-negative: for a valid scene (every light intensity
/// non-negative, every material fraction in range) the total computed
/// intensity is never negative, whatever the geometry.
pub proof fn lemma_lighting_nonneg(scene: Scene, p: Vec3, n: Vec3, v: Vec3, s: int, k: int)
    requires
        scene_valid(scene),
        0 <= k <= scene.lights@.len(),
    ensures
        lighting_upto_spec(scene, p, n, v, s, k) >= 0,
    decreases k,
{
    if k > 0 {
        lemma_lighting_nonneg(scene, p, n, v, s, k - 1);
        assert(light_valid(scene.lights@[k - 1]));
        lemma_light_term_nonneg(scene, p, n, v, s, scene.lights@[k - 1]);
    }
}

/// A point fully occluded from a point light by an opaque sphere
/// (`transparency == 0`) standing between them receives zero diffuse and
/// specular contribution from that light.
pub proof fn lemma_opaque_occluder_blocks_point_light(
    scene: Scene,
    p: Vec3,
    n: Vec3,
    v: Vec3,
    s: int,
    intensity: i64,
    position: Vec3,
)
    requires
        ({
            let l = sub_spec(position, p);
            let shadow = closest_hit_spec(p, l, EPSILON as int, FX_ONE as int, scene.spheres@, -1);
            &&& shadow is Some
            &&& scene.spheres@[shadow->Some_0.1].transparency == 0
        }),
    ensures
        light_term_spec(scene, p, n, v, s, Light::Point { intensity, position }) == 0,
{
    let l = sub_spec(position, p);
    let shadow = closest_hit_spec(p, l, EPSILON as int, FX_ONE as int, scene.spheres@, -1);
    assert(sat64(FX_ONE - scene.spheres@[shadow->Some_0.1].transparency) == FX_ONE as int);
}

/// The diffuse-plus-specular term of one non-ambient light, shadow
/// attenuation applied; the executable counterpart of `shaded_term_spec`.
fn shaded_term(
    scene: &Scene,
    p: &Vec3,
    n: &Vec3,
    v: &Vec3,
    s: i64,
    l: &Vec3,
    t_max: i64,
    factor: i64,
) -> (r: i64)
    requires
        scene.spheres@.len() <= i32::MAX,
    ensures
        r as int == shaded_term_spec(*scene, *p, *n, *v, s as int, *l, t_max as int, factor as int),
{
    let shadow = get_closest_ray_sphere_intersection(p, l, EPSILON, t_max, &scene.spheres, -1);
    let attenuation: i64 = match shadow {
        Some(pair) => {
            proof {
                lemma_closest_upto_is_hit(
                    *p,
                    *l,
                    EPSILON as int,
                    t_max as int,
                    scene.spheres@,
                    -1,
                    scene.spheres@.len() as int,
                );
            }
            fx_sub(FX_ONE, scene.spheres[pair.1].transparency)
        },
        None => 0,
    };
    if attenuation == FX_ONE {
        return 0;
    }
    let mut light_intensity: i64 = 0;

    // Diffuse
    let n_dot_l = n.dot(l);
    if n_dot_l > 0 {
        let modif = fx_div(fx_mul(factor, n_dot_l), fx_mul(n.length(), l.length()));
        light_intensity = fx_add(light_intensity, modif);
    }

    // Specular
    if s >= 0 {
        let refl = reflect_ray(l, n);
        let r_dot_v = refl.dot(v);
        if r_dot_v > 0 {
            let base = fx_div(r_dot_v, fx_mul(refl.length(), v.length()));
            light_intensity = fx_add(light_intensity, fx_mul(factor, fx_pow(base, s as u64)));
        }
    }

    // Apply shadow attenuation
    fx_mul(light_intensity, fx_sub(FX_ONE, attenuation))
}

/// Accumulates a scalar intensity for the point `p` with surface normal `n`
/// and view direction `v`, summing over every light of the scene: ambient
/// intensity unconditionally; for point and directional lights a diffuse
/// term, a specular term when the shininess exponent `s` is non-negative
/// (a negative exponent means no specular contribution), and
/// shadow attenuation by the occluder's transparency. The result is the
/// un-clamped saturating sum; the caller scales the sphere's base color by it.
pub fn compute_lighting(p: &Vec3, n: &Vec3, v: &Vec3, s: i64, scene: &Scene) -> (r: i64)
    requires
        scene.spheres@.len() <= i32::MAX,
    ensures
        r as int == lighting_spec(*scene, *p, *n, *v, s as int),
        scene_valid(*scene) ==> r >= 0,
{
    let mut final_intensity: i64 = 0;
    let mut i: usize = 0;
    while i < scene.lights.len()
        invariant
            scene.spheres@.len() <= i32::MAX,
            0 <= i <= scene.lights@.len(),
            final_intensity as int == lighting_upto_spec(*scene, *p, *n, *v, s as int, i as int),
        decreases scene.lights@.len() - i,
    {
        let term: i64 = match scene.lights[i] {
            Light::Ambient { intensity } => intensity,
            Light::Point { intensity, position } => {
                let l = position.minus(p);
                shaded_term(scene, p, n, v, s, &l, FX_ONE, intensity)
            },
            Light::Directional { intensity, direction } => {
                shaded_term(scene, p, n, v, s, &direction, FX_MAX, intensity)
            },
        };
        final_intensity = fx_add(final_intensity, term);
        i = i + 1;
    }
    proof {
        if scene_valid(*scene) {
            lemma_lighting_nonneg(*scene, *p, *n, *v, s as int, scene.lights@.len() as int);
        }
    }
    final_intensity
}

} // verus!
