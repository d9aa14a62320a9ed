use vstd::prelude::*;

use crate::base::color::{color_lerp_spec, color_scale_spec, Color};
use crate::base::fixed::{FX_MAX, FX_ONE};
use crate::base::vec3::{add_spec, neg_spec, normalized_spec, scale_spec, sub_spec, Vec3};
use crate::scene::intersect::{
    closest_hit_spec, get_closest_ray_sphere_intersection, lemma_closest_upto_is_hit, EPSILON,
};
use crate::scene::lighting::{compute_lighting, lighting_spec, reflect_ray, reflect_spec};
use crate::scene::scene::Scene;

verus! {

/// How many times a ray may be extended. Reflection and transparency draw on
/// this one shared budget: each recursive ray carries `depth - 1`, so the
/// worst-case fan-out is `2^depth` rays.
pub const RECURSION_DEPTH: u32 = 3;

/// Mirror of `trace_ray`. A ray that hits nothing inside its window yields
/// the scene's background color. Otherwise the local color is the sphere's
/// base color scaled by the computed lighting; if the sphere is reflective
/// and budget remains, it is blended with the color of the mirrored ray; if
/// the sphere is transparent and budget remains, the result is blended with
/// the color of the ray continuing straight through (which skips the sphere
/// it just crossed).
pub open spec fn trace_spec(
    scene: Scene,
    origin: Vec3,
    direction: Vec3,
    t_min: int,
    t_max: int,
    ignore: int,
    depth: nat,
) -> Color
    decreases depth,
{
    let hit = closest_hit_spec(origin, direction, t_min, t_max, scene.spheres@, ignore);
    match hit {
        None => scene.specs.background_color,
        Some(pr) => {
            let sphere = scene.spheres@[pr.1];
            let p = add_spec(origin, scale_spec(direction, pr.0));
            let n = normalized_spec(sub_spec(p, sphere.center));
            let neg_d = neg_spec(direction);
            let intensity = lighting_spec(scene, p, n, neg_d, sphere.specular as int);
            let local = color_scale_spec(sphere.color, intensity);
            let after_reflect = if sphere.reflective > 0 && depth > 0 {
                let reflected = trace_spec(
                    scene,
                    p,
                    reflect_spec(neg_d, n),
                    EPSILON as int,
                    FX_MAX as int,
                    -1,
                    (depth - 1) as nat,
                );
                color_lerp_spec(local, reflected, sphere.reflective as int)
            } else {
                local
            };
            if sphere.transparency > 0 && depth > 0 {
                let through = trace_spec(
                    scene,
                    p,
                    direction,
                    EPSILON as int,
                    t_max,
                    pr.1,
                    (depth - 1) as nat,
                );
                color_lerp_spec(after_reflect, through, sphere.transparency as int)
            } else {
                after_reflect
            }
        },
    }
}

/// Cast the ray `origin + t * direction` through the scene and return its
/// color, recursing for reflection and transparency while `recursion_depth`
/// lasts. `ignore_sphere_index` names a sphere excluded from the search (so
/// a transparency ray does not re-hit the surface it just crossed); pass a
/// negative value to exclude none.
pub fn trace_ray(
    origin: &Vec3,
    direction: &Vec3,
    distance_min: i64,
    distance_max: i64,
    scene: &Scene,
    ignore_sphere_index: i32,
    recursion_depth: u32,
) -> (color: Color)
    requires
        scene.spheres@.len() <= i32::MAX,
    ensures
        color == trace_spec(
            *scene,
            *origin,
            *direction,
            distance_min as int,
            distance_max as int,
            ignore_sphere_index as int,
            recursion_depth as nat,
        ),
    decreases recursion_depth,
{
    // Local color
    let option = get_closest_ray_sphere_intersection(
        origin,
        direction,
        distance_min,
        distance_max,
        &scene.spheres,
        ignore_sphere_index,
    );
    let (t1, sphere_index) = match option {
        None => {
            return scene.specs.background_color;
        },
        Some(pair) => pair,
    };
    proof {
        lemma_closest_upto_is_hit(
            *origin,
            *direction,
            distance_min as int,
            distance_max as int,
            scene.spheres@,
            ignore_sphere_index as int,
            scene.spheres@.len() as int,
        );
    }
    let sphere = &scene.spheres[sphere_index];
    let p = origin.plus(&direction.scaled(t1));
    let n = p.minus(&sphere.center).get_normalized();
    let neg_d = direction.negated();
    let intensity = compute_lighting(&p, &n, &neg_d, sphere.specular, scene);
    let mut color = sphere.color.mul(intensity);

    // Reflected color
    if sphere.reflective > 0 && recursion_depth > 0 {
        let r2 = reflect_ray(&neg_d, &n);
        let reflected_color = trace_ray(&p, &r2, EPSILON, FX_MAX, scene, -1, recursion_depth - 1);
        color = Color::lerp(color, reflected_color, sphere.reflective);
    }

    // Transparency
    if sphere.transparency > 0 && recursion_depth > 0 {
        let trans_color = trace_ray(
            &p,
            direction,
            EPSILON,
            distance_max,
            scene,
            sphere_index as i32,
            recursion_depth - 1,
        );
        color = Color::lerp(color, trans_color, sphere.transparency);
    }

    color
}

/// A ray that misses every sphere returns exactly the scene's background
/// color, whatever the recursion budget.
pub proof fn lemma_trace_miss_is_background(
    scene: Scene,
    origin: Vec3,
    direction: Vec3,
    t_min: int,
    t_max: int,
    ignore: int,
    depth: nat,
)
    requires
        closest_hit_spec(origin, direction, t_min, t_max, scene.spheres@, ignore) is None,
    ensures
        trace_spec(scene, origin, direction, t_min, t_max, ignore, depth)
            == scene.specs.background_color,
{
}

/// With `reflective == 0` and `transparency == 0` on the sphere that was
/// hit, tracing blends nothing: the result is exactly the locally shaded
/// color, with no recursive contribution.
pub proof fn lemma_trace_opaque_is_local_color(
    scene: Scene,
    origin: Vec3,
    direction: Vec3,
    t_min: int,
    t_max: int,
    ignore: int,
    depth: nat,
)
    requires
        closest_hit_spec(origin, direction, t_min, t_max, scene.spheres@, ignore) is Some,
        ({
            let pr = closest_hit_spec(origin, direction, t_min, t_max, scene.spheres@, ignore)->Some_0;
            &&& scene.spheres@[pr.1].reflective == 0
            &&& scene.spheres@[pr.1].transparency == 0
        }),
    ensures
        ({
            let pr = closest_hit_spec(origin, direction, t_min, t_max, scene.spheres@, ignore)->Some_0;
            let sphere = scene.spheres@[pr.1];
            let p = add_spec(origin, scale_spec(direction, pr.0));
            let n = normalized_spec(sub_spec(p, sphere.center));
            trace_spec(scene, origin, direction, t_min, t_max, ignore, depth) == color_scale_spec(
                sphere.color,
                lighting_spec(scene, p, n, neg_spec(direction), sphere.specular as int),
            )
        }),
{
}

} // verus!
