use ray_tracer::base::color::Color;
use ray_tracer::base::fixed::{FX_MAX, FX_MIN, FX_ONE};
use ray_tracer::base::quat::Quat;
use ray_tracer::base::vec3::Vec3;
use ray_tracer::scene::intersect::{get_closest_ray_sphere_intersection, intersect_ray_sphere};
use ray_tracer::scene::lighting::{compute_lighting, reflect_ray};
use ray_tracer::scene::scene::{Light, Scene, Specs, Sphere};
use ray_tracer::scene::tracer::trace_ray;

const S: i64 = FX_ONE;

fn plain_sphere(center: Vec3, radius: i64, color: Color) -> Sphere {
    Sphere { center, radius, color, specular: -S, reflective: 0, transparency: 0 }
}

fn ambient_scene(spheres: Vec<Sphere>, intensity: i64) -> Scene {
    Scene {
        spheres,
        lights: vec![Light::Ambient { intensity }],
        specs: Specs::new_with_defaults(),
    }
}

#[test]
fn ray_through_center_symmetric_roots() {
    // Unit direction, center 5.0 ahead, radius 2.0: roots 5 +/- 2.
    let origin = Vec3::new(0, 0, 0);
    let direction = Vec3::new(0, 0, S);
    let sphere = plain_sphere(Vec3::new(0, 0, 5 * S), 2 * S, Color::new_black());
    let (t1, t2) = intersect_ray_sphere(&origin, &direction, &sphere);
    assert_eq!(t1, 7 * S);
    assert_eq!(t2, 3 * S);
    // symmetric about the projection of the center onto the ray
    assert_eq!(t1 + t2, 2 * 5 * S);
}

#[test]
fn tangent_ray_equal_roots() {
    // The ray runs parallel to z at x = 2.0; the sphere's center sits at
    // x = 0 with radius 2.0, so the distance from center to ray is exactly
    // the radius and the discriminant vanishes.
    let origin = Vec3::new(2 * S, 0, 0);
    let direction = Vec3::new(0, 0, S);
    let sphere = plain_sphere(Vec3::new(0, 0, 5 * S), 2 * S, Color::new_black());
    let (t1, t2) = intersect_ray_sphere(&origin, &direction, &sphere);
    assert_eq!(t1, t2);
    assert_eq!(t1, 5 * S);
}

#[test]
fn missing_ray_returns_sentinel() {
    let origin = Vec3::new(0, 0, 0);
    let direction = Vec3::new(0, 0, S);
    let sphere = plain_sphere(Vec3::new(10 * S, 0, 5 * S), S, Color::new_black());
    let (t1, t2) = intersect_ray_sphere(&origin, &direction, &sphere);
    assert_eq!(t1, FX_MIN);
    assert_eq!(t2, FX_MIN);
}

#[test]
fn closest_picks_nearest_sphere() {
    let origin = Vec3::new(0, 0, 0);
    let direction = Vec3::new(0, 0, S);
    let far = plain_sphere(Vec3::new(0, 0, 9 * S), S, Color::new_black());
    let near = plain_sphere(Vec3::new(0, 0, 5 * S), 2 * S, Color::new_black());
    let spheres = vec![far, near];
    let hit = get_closest_ray_sphere_intersection(&origin, &direction, S, FX_MAX, &spheres, -1);
    assert_eq!(hit, Some((3 * S, 1)));
}

#[test]
fn closest_breaks_ties_by_lowest_index() {
    let origin = Vec3::new(0, 0, 0);
    let direction = Vec3::new(0, 0, S);
    let sphere = plain_sphere(Vec3::new(0, 0, 5 * S), 2 * S, Color::new_black());
    let spheres = vec![sphere, sphere];
    let hit = get_closest_ray_sphere_intersection(&origin, &direction, S, FX_MAX, &spheres, -1);
    assert_eq!(hit, Some((3 * S, 0)));
}

#[test]
fn closest_honors_ignore_index() {
    let origin = Vec3::new(0, 0, 0);
    let direction = Vec3::new(0, 0, S);
    let sphere = plain_sphere(Vec3::new(0, 0, 5 * S), 2 * S, Color::new_black());
    let spheres = vec![sphere, sphere];
    let hit = get_closest_ray_sphere_intersection(&origin, &direction, S, FX_MAX, &spheres, 0);
    assert_eq!(hit, Some((3 * S, 1)));
}

#[test]
fn closest_rejects_roots_outside_window() {
    let origin = Vec3::new(0, 0, 0);
    let direction = Vec3::new(0, 0, S);
    // roots at 3.0 and 7.0: a window above both finds nothing
    let sphere = plain_sphere(Vec3::new(0, 0, 5 * S), 2 * S, Color::new_black());
    let spheres = vec![sphere];
    let hit = get_closest_ray_sphere_intersection(&origin, &direction, 8 * S, FX_MAX, &spheres, -1);
    assert_eq!(hit, None);
    // a window between the roots finds nothing either
    let hit2 = get_closest_ray_sphere_intersection(&origin, &direction, 4 * S, 6 * S, &spheres, -1);
    assert_eq!(hit2, None);
    // the far root alone qualifies when the window starts past the near one
    let hit3 = get_closest_ray_sphere_intersection(&origin, &direction, 4 * S, FX_MAX, &spheres, -1);
    assert_eq!(hit3, Some((7 * S, 0)));
}

#[test]
fn reflect_ray_mirrors_about_normal() {
    let n = Vec3::new(0, S, 0);
    let r = Vec3::new(S, S, 0);
    // 2 n (n . r) - r = (0, 2, 0) - (1, 1, 0) = (-1, 1, 0)
    assert_eq!(reflect_ray(&r, &n), Vec3::new(-S, S, 0));
}

#[test]
fn lighting_ambient_only_sums_intensity() {
    let scene = ambient_scene(vec![], S);
    let p = Vec3::new(0, 0, 0);
    let n = Vec3::new(0, 0, S);
    let v = Vec3::new(0, 0, -S);
    assert_eq!(compute_lighting(&p, &n, &v, -S, &scene), S);
}

#[test]
fn lighting_point_light_head_on() {
    let scene = Scene {
        spheres: vec![],
        lights: vec![Light::Point { intensity: S, position: Vec3::new(0, 0, 2 * S) }],
        specs: Specs::new_with_defaults(),
    };
    let p = Vec3::new(0, 0, 0);
    let n = Vec3::new(0, 0, S);
    let v = Vec3::new(0, 0, -S);
    // diffuse head-on at full intensity, no specular (negative exponent)
    assert_eq!(compute_lighting(&p, &n, &v, -S, &scene), S);
}

#[test]
fn lighting_specular_at_zero_exponent() {
    // An unshadowed directional light head-on: the diffuse term is the full
    // intensity, and a shininess exponent of zero still adds the specular
    // term (its power is 1.0), doubling the total. A negative exponent is
    // the no-specular sentinel and leaves the diffuse term alone.
    let scene = Scene {
        spheres: vec![],
        lights: vec![Light::Directional { intensity: S, direction: Vec3::new(0, 0, S) }],
        specs: Specs::new_with_defaults(),
    };
    let p = Vec3::new(0, 0, 0);
    let n = Vec3::new(0, 0, S);
    let v = Vec3::new(0, 0, S);
    assert_eq!(compute_lighting(&p, &n, &v, 0, &scene), 2 * S);
    assert_eq!(compute_lighting(&p, &n, &v, -1, &scene), S);
}

#[test]
fn lighting_is_nonnegative_with_valid_scene() {
    let occluder = plain_sphere(Vec3::new(S / 2, -S, 3 * S), S, Color::new_black());
    let scene = Scene {
        spheres: vec![occluder],
        lights: vec![
            Light::Ambient { intensity: 100 },
            Light::Point { intensity: S, position: Vec3::new(-3 * S, 7 * S, 2 * S) },
            Light::Directional { intensity: S / 2, direction: Vec3::new(S, -S, S / 4) },
        ],
        specs: Specs::new_with_defaults(),
    };
    let p = Vec3::new(11, -22, 33);
    let n = Vec3::new(-S, S / 3, S / 7);
    let v = Vec3::new(S / 9, -S, S);
    assert!(compute_lighting(&p, &n, &v, 10, &scene) >= 0);
}

#[test]
fn opaque_occluder_blocks_point_light() {
    // A point light behind an opaque sphere contributes nothing; only the
    // ambient term remains.
    let occluder = plain_sphere(Vec3::new(0, 0, 2 * S), S, Color::new_black());
    let scene = Scene {
        spheres: vec![occluder],
        lights: vec![
            Light::Ambient { intensity: 19660 },
            Light::Point { intensity: S, position: Vec3::new(0, 0, 4 * S) },
        ],
        specs: Specs::new_with_defaults(),
    };
    let p = Vec3::new(0, 0, 0);
    let n = Vec3::new(0, 0, S);
    let v = Vec3::new(0, 0, -S);
    assert_eq!(compute_lighting(&p, &n, &v, -S, &scene), 19660);
}

#[test]
fn transparent_occluder_attenuates_light() {
    // The same geometry with a half-transparent occluder lets half of the
    // head-on diffuse contribution through.
    let mut occluder = plain_sphere(Vec3::new(0, 0, 2 * S), S, Color::new_black());
    occluder.transparency = S / 2;
    let scene = Scene {
        spheres: vec![occluder],
        lights: vec![Light::Point { intensity: S, position: Vec3::new(0, 0, 4 * S) }],
        specs: Specs::new_with_defaults(),
    };
    let p = Vec3::new(0, 0, 0);
    let n = Vec3::new(0, 0, S);
    let v = Vec3::new(0, 0, -S);
    assert_eq!(compute_lighting(&p, &n, &v, -S, &scene), S / 2);
}

#[test]
fn trace_miss_returns_background() {
    let mut specs = Specs::new_with_defaults();
    specs.background_color = Color::new(111, 222, 333);
    let scene = Scene {
        spheres: vec![plain_sphere(Vec3::new(10 * S, 0, 5 * S), S, Color::new(S, 0, 0))],
        lights: vec![Light::Ambient { intensity: S }],
        specs,
    };
    let origin = Vec3::new(0, 0, 0);
    let direction = Vec3::new(0, 0, S);
    let c = trace_ray(&origin, &direction, S, FX_MAX, &scene, -1, 3);
    assert_eq!(c, Color::new(111, 222, 333));
}

#[test]
fn trace_opaque_sphere_is_local_color() {
    // reflective == 0 and transparency == 0: the result is exactly the base
    // color times the ambient intensity 1.0, with no recursive contribution.
    let color = Color::new(S / 2, S / 4, S);
    let scene = ambient_scene(vec![plain_sphere(Vec3::new(0, 0, 3 * S), S, color)], S);
    let origin = Vec3::new(0, 0, 0);
    let direction = Vec3::new(0, 0, S);
    let c = trace_ray(&origin, &direction, S, FX_MAX, &scene, -1, 3);
    assert_eq!(c, color);
}

#[test]
fn trace_fully_transparent_sphere_shows_sphere_behind() {
    let red = Color::new(S, 0, 0);
    let blue = Color::new(0, 0, S);
    let mut front = plain_sphere(Vec3::new(0, 0, 3 * S), S, red);
    front.transparency = S;
    let back = plain_sphere(Vec3::new(0, 0, 6 * S), S, blue);
    let scene = ambient_scene(vec![front, back], S);
    let origin = Vec3::new(0, 0, 0);
    let direction = Vec3::new(0, 0, S);
    let c = trace_ray(&origin, &direction, S, FX_MAX, &scene, -1, 3);
    assert_eq!(c, blue);
}

#[test]
fn trace_with_depth_zero_stays_local() {
    // with no recursion budget the transparent sphere shows its own color
    let red = Color::new(S, 0, 0);
    let blue = Color::new(0, 0, S);
    let mut front = plain_sphere(Vec3::new(0, 0, 3 * S), S, red);
    front.transparency = S;
    let back = plain_sphere(Vec3::new(0, 0, 6 * S), S, blue);
    let scene = ambient_scene(vec![front, back], S);
    let origin = Vec3::new(0, 0, 0);
    let direction = Vec3::new(0, 0, S);
    let c = trace_ray(&origin, &direction, S, FX_MAX, &scene, -1, 0);
    assert_eq!(c, red);
}

#[test]
fn trace_half_reflective_blends_with_background() {
    // A half-reflective sphere seen head-on mirrors the ray straight back at
    // the camera, where nothing stands: the reflected color is the
    // background, so the result blends local color and background evenly.
    let mut specs = Specs::new_with_defaults();
    specs.background_color = Color::new(0, S, 0);
    let red = Color::new(S, 0, 0);
    let mut sphere = plain_sphere(Vec3::new(0, 0, 3 * S), S, red);
    sphere.reflective = S / 2;
    let scene = Scene {
        spheres: vec![sphere],
        lights: vec![Light::Ambient { intensity: S }],
        specs,
    };
    let origin = Vec3::new(0, 0, 0);
    let direction = Vec3::new(0, 0, S);
    let c = trace_ray(&origin, &direction, S, FX_MAX, &scene, -1, 3);
    assert_eq!(c, Color::new(S / 2, S / 2, 0));
}

#[test]
fn specs_defaults_are_unit() {
    let specs = Specs::new_with_defaults();
    assert_eq!(specs.canvas_width, S);
    assert_eq!(specs.canvas_height, S);
    assert_eq!(specs.viewport_width, S);
    assert_eq!(specs.viewport_height, S);
    assert_eq!(specs.viewport_distance, S);
    assert_eq!(specs.pixel_ar, S);
    assert_eq!(specs.camera_pos, Vec3::new(0, 0, 0));
    assert_eq!(specs.camera_orientation, Quat::new(S, 0, 0, 0));
    assert_eq!(specs.background_color, Color::new_black());
}
