pub mod color;
pub mod fixed;
pub mod quat;
pub mod vec3;
