use vstd::prelude::*;

use crate::base::color::Color;
use crate::base::fixed::FX_ONE;
use crate::base::quat::Quat;
use crate::base::vec3::Vec3;

verus! {

/// The objects of a 3D scene — spheres and lights — together with the
/// `Specs` needed to render it. Built once before a render and read-only for
/// its whole duration: the renderer takes it by shared reference, so workers
/// rendering different bands may hold it concurrently, and no writer can
/// touch it while any render is in flight.
///
/// The core performs no validation of this data: a non-positive radius or a
/// channel outside its range yields harmless garbage colors, never a panic.
#[derive(Debug)]
pub struct Scene {
    pub spheres: Vec<Sphere>,
    pub lights: Vec<Light>,
    pub specs: Specs,
}

/// Camera and viewport configuration.
#[derive(Clone, Copy, PartialEq, Eq, Structural, Debug)]
pub struct Specs {
    /// Canvas dimensions in world units (used only for scaling).
    pub canvas_width: i64,
    pub canvas_height: i64,
    /// Viewport dimensions in world units.
    pub viewport_width: i64,
    pub viewport_height: i64,
    /// Distance from camera to viewport along the view axis.
    pub viewport_distance: i64,
    /// Aspect ratio of one output cell; 1.0 conventionally, font-dependent
    /// (around 0.6 to 0.8) when the output is a terminal grid.
    pub pixel_ar: i64,
    /// Camera position and orientation; the orientation is applied to every
    /// primary-ray direction.
    pub camera_pos: Vec3,
    pub camera_orientation: Quat,
    /// The color returned for rays that hit nothing.
    pub background_color: Color,
}

impl Specs {
    /// Specs with every scalar at 1.0, the camera at the origin with the
    /// identity orientation, and a black background.
    pub fn new_with_defaults() -> (s: Specs)
        ensures
            s == (Specs {
                canvas_width: FX_ONE,
                canvas_height: FX_ONE,
                viewport_width: FX_ONE,
                viewport_height: FX_ONE,
                viewport_distance: FX_ONE,
                pixel_ar: FX_ONE,
                camera_pos: Vec3 { x: 0i64, y: 0i64, z: 0i64 },
                camera_orientation: Quat { w: FX_ONE, x: 0i64, y: 0i64, z: 0i64 },
                background_color: Color { r: 0i64, g: 0i64, b: 0i64 },
            }),
    {
        Specs {
            canvas_width: FX_ONE,
            canvas_height: FX_ONE,
            viewport_width: FX_ONE,
            viewport_height: FX_ONE,
            viewport_distance: FX_ONE,
            pixel_ar: FX_ONE,
            camera_pos: Vec3 { x: 0, y: 0, z: 0 },
            camera_orientation: Quat { w: FX_ONE, x: 0, y: 0, z: 0 },
            background_color: Color { r: 0, g: 0, b: 0 },
        }
    }
}

/// A sphere with its material.
#[derive(Clone, Copy, PartialEq, Eq, Structural, Debug)]
pub struct Sphere {
    pub center: Vec3,
    /// Radius in world units; expected positive.
    pub radius: i64,
    pub color: Color,
    /// Shininess exponent; negative means no specular contribution.
    pub specular: i64,
    /// Fraction (0.0 to 1.0) of the local color replaced by the
    /// reflected-ray color.
    pub reflective: i64,
    /// Fraction (0.0 to 1.0) of the local color replaced by the color of the
    /// ray continuing straight through the sphere.
    pub transparency: i64,
}

/// A light source. Intensities are non-negative scalars; the contributions
/// of several lights sum.
#[derive(Clone, Copy, PartialEq, Eq, Structural, Debug)]
pub enum Light {
    Ambient { intensity: i64 },
    Point { intensity: i64, position: Vec3 },
    Directional { intensity: i64, direction: Vec3 },
}

/// The intensity carried by a light, whatever its kind.
pub open spec fn light_intensity_spec(l: Light) -> int {
    match l {
        Light::Ambient { intensity } => intensity as int,
        Light::Point { intensity, position: _ } => intensity as int,
        Light::Directional { intensity, direction: _ } => intensity as int,
    }
}

/// A sphere whose material fractions lie in their documented ranges.
pub open spec fn sphere_valid(s: Sphere) -> bool {
    &&& 0 <= s.transparency <= FX_ONE
    &&& 0 <= s.reflective <= FX_ONE
}

/// A light with a non-negative intensity.
pub open spec fn light_valid(l: Light) -> bool {
    light_intensity_spec(l) >= 0
}

/// Every sphere and light of the scene is within its documented ranges.
pub open spec fn scene_valid(scene: Scene) -> bool {
    &&& forall|i: int| 0 <= i < scene.spheres.len() ==> sphere_valid(#[trigger] scene.spheres[i])
    &&& forall|i: int| 0 <= i < scene.lights.len() ==> light_valid(#[trigger] scene.lights[i])
}

} // verus!
