pub mod intersect;
pub mod lighting;
pub mod renderer;
pub mod scene;
pub mod tracer;
