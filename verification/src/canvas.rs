pub mod canvas;
pub mod console_composite_canvas;
pub mod u8_canvas;
pub mod vector_canvas;
