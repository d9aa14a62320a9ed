//! A verified Whitted ray tracer.
//!
//! The library renders a static scene of spheres and lights into a 2D grid of
//! colors: primary rays are cast per output cell, intersected against the
//! sphere list, shaded with diffuse and specular lighting plus shadow
//! attenuation, and extended recursively for reflection and transparency.
//!
//! All scalars are fixed-point integers (see `base::fixed`), so every stage of
//! the pipeline carries an exact contract: each executable function returns
//! precisely the value of its specification-level mirror.

pub mod base;
pub mod canvas;
pub mod scene;
pub mod util;
