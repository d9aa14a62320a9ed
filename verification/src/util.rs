pub mod ansi;
pub mod maths;
