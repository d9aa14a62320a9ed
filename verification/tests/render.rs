use ray_tracer::base::color::Color;
use ray_tracer::base::fixed::FX_ONE;
use ray_tracer::base::quat::Quat;
use ray_tracer::base::vec3::Vec3;
use ray_tracer::canvas::canvas::Canvas;
use ray_tracer::canvas::u8_canvas::U8Canvas;
use ray_tracer::canvas::vector_canvas::VectorCanvas;
use ray_tracer::scene::renderer::{
    band_bounds, canvas_to_viewport, merge_band, render_to_canvas_all, render_to_canvas_ranged,
};
use ray_tracer::scene::scene::{Light, Scene, Specs, Sphere};

const S: i64 = FX_ONE;

fn unit_scene_with_sphere(color: Color) -> Scene {
    Scene {
        spheres: vec![Sphere {
            center: Vec3::new(0, 0, 3 * S),
            radius: S,
            color,
            specular: -S,
            reflective: 0,
            transparency: 0,
        }],
        lights: vec![Light::Ambient { intensity: S }],
        specs: Specs::new_with_defaults(),
    }
}

#[test]
fn single_pixel_sees_sphere_color() {
    // One ambient light at 1.0, a unit sphere straight ahead, camera at the
    // origin looking down +z, 1x1 grid: the pixel is the base color.
    let color = Color::new(S / 2, S / 4, S);
    let scene = unit_scene_with_sphere(color);
    let mut canvas = VectorCanvas::<Color>::new(1, 1, Color::new_black());
    render_to_canvas_all(&scene, &mut canvas);
    assert_eq!(canvas.get_value(0, 0), color);
}

#[test]
fn single_pixel_away_from_sphere_sees_background() {
    // Same setup, camera turned half a turn about y: background only.
    let color = Color::new(S / 2, S / 4, S);
    let mut scene = unit_scene_with_sphere(color);
    scene.specs.camera_orientation = Quat::new(0, 0, S, 0);
    scene.specs.background_color = Color::new(111, 222, 333);
    let mut canvas = VectorCanvas::<Color>::new(1, 1, Color::new_black());
    render_to_canvas_all(&scene, &mut canvas);
    assert_eq!(canvas.get_value(0, 0), Color::new(111, 222, 333));
}

#[test]
fn band_bounds_cover_rows_exactly_once() {
    let height = 7;
    let workers = 3;
    let mut next_row = 0;
    for i in 0..workers {
        let (start, end) = band_bounds(i, workers, height);
        assert_eq!(start, next_row);
        assert!(end >= start);
        next_row = end;
    }
    assert_eq!(next_row, height);
}

#[test]
fn band_bounds_single_worker_takes_all() {
    assert_eq!(band_bounds(0, 1, 5), (0, 5));
}

#[test]
fn band_bounds_more_workers_than_rows() {
    // span rounds down to zero; every band but the last is empty, and the
    // last absorbs all rows
    let height = 2;
    let workers = 5;
    let mut covered = 0;
    for i in 0..workers {
        let (start, end) = band_bounds(i, workers, height);
        assert_eq!(start, covered);
        covered = end;
    }
    assert_eq!(covered, height);
    assert_eq!(band_bounds(4, 5, 2), (0, 2));
}

#[test]
fn banded_render_with_empty_bands_matches_full() {
    let scene = unit_scene_with_sphere(Color::new(S / 3, S / 2, S));
    let width = 2;
    let height = 2;
    let workers = 5;

    let mut direct = U8Canvas::new(width, height);
    render_to_canvas_all(&scene, &mut direct);

    let mut merged = U8Canvas::new(width, height);
    for i in 0..workers {
        let (y_start, y_end) = band_bounds(i, workers, height);
        let mut sub = U8Canvas::new(width, y_end - y_start);
        render_to_canvas_ranged(&scene, &mut sub, y_start, y_end, height);
        merge_band(&mut merged, &sub, y_start);
    }

    assert_eq!(direct.data, merged.data);
}

#[test]
fn banded_render_matches_full_render() {
    // Render the same scene once whole and once in three bands merged back;
    // equally-sized surfaces of the same kind are pixel-identical.
    let mut scene = unit_scene_with_sphere(Color::new(S / 2, S / 4, S));
    scene.specs.background_color = Color::new(S / 8, S / 8, S / 8);
    let width = 4;
    let height = 5;
    let workers = 3;

    let mut direct = U8Canvas::new(width, height);
    render_to_canvas_all(&scene, &mut direct);

    let mut merged = U8Canvas::new(width, height);
    for i in 0..workers {
        let (y_start, y_end) = band_bounds(i, workers, height);
        let mut sub = U8Canvas::new(width, y_end - y_start);
        render_to_canvas_ranged(&scene, &mut sub, y_start, y_end, height);
        merge_band(&mut merged, &sub, y_start);
    }

    assert_eq!(direct.data, merged.data);
}

#[test]
fn ranged_render_rows_match_full_render() {
    let mut scene = unit_scene_with_sphere(Color::new(S, S / 3, S / 5));
    scene.specs.background_color = Color::new(0, S / 2, S);
    let width = 3;
    let height = 4;

    let mut full = VectorCanvas::<Color>::new(width, height, Color::new_black());
    render_to_canvas_all(&scene, &mut full);

    let mut band = VectorCanvas::<Color>::new(width, 2, Color::new_black());
    render_to_canvas_ranged(&scene, &mut band, 1, 3, height);
    for x in 0..width {
        assert_eq!(band.get_value(x, 0), full.get_value(x, 1));
        assert_eq!(band.get_value(x, 1), full.get_value(x, 2));
    }
}

#[test]
fn zero_sized_surfaces_render_harmlessly() {
    let scene = unit_scene_with_sphere(Color::new(S, S, S));
    let mut empty = VectorCanvas::<Color>::new(0, 0, Color::new_black());
    render_to_canvas_all(&scene, &mut empty);
    let mut flat = U8Canvas::new(2, 0);
    render_to_canvas_all(&scene, &mut flat);
    assert_eq!(flat.data.len(), 0);
}

#[test]
fn canvas_to_viewport_scales_by_ratios() {
    let mut specs = Specs::new_with_defaults();
    specs.viewport_width = 2 * S;
    specs.canvas_width = 4 * S;
    specs.viewport_distance = 3 * S;
    let d = canvas_to_viewport(2 * S, S, &specs);
    assert_eq!(d, Vec3::new(S, S, 3 * S));
}

#[test]
fn vector_canvas_set_get_round_trip() {
    let mut canvas = VectorCanvas::<Color>::new(3, 2, Color::new_black());
    assert_eq!(canvas.get_width(), 3);
    assert_eq!(canvas.get_height(), 2);
    assert_eq!(canvas.get_flat_index(2, 1), 5);
    let c = Color::new(1, 2, 3);
    canvas.set_value(2, 1, &c);
    assert_eq!(canvas.get_value(2, 1), c);
    assert_eq!(canvas.get_value(0, 0), Color::new_black());
}

#[test]
fn u8_canvas_quantizes_on_write() {
    let mut canvas = U8Canvas::new(2, 2);
    assert_eq!(canvas.get_width(), 2);
    assert_eq!(canvas.get_height(), 2);
    let c = Color::from_u8(40, 177, 249);
    canvas.set_value(1, 0, &c);
    // the byte round trip is exact for colors that came from bytes
    assert_eq!(canvas.get_value(1, 0), c);
    // RGBA layout: cell (1, 0) starts at byte 4, alpha pinned at 255
    assert_eq!(canvas.data[7], 255);
    // an out-of-range channel is clamped before storing
    canvas.set_value(0, 0, &Color::new(-S, 2 * S, S / 2));
    assert_eq!(canvas.get_value(0, 0).to_u8(), (0, 255, 128));
}
