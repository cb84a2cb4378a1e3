//! Canvases of packed 32-bit colors: owned pixel buffers, bounded views
//! into them, and the coordinate arithmetic — rectangle and triangle
//! normalization, barycentric coordinates, alpha blending, bounds-checked
//! pixel writes — that keeps every access inside the buffer.

mod canvas;
mod colors;
mod util;

pub use canvas::{Canvas, SubCanvas};
pub use colors::{alpha, blend_color, blend_color_in_place, blue, green, red, rgb, rgba};
pub use util::{barycentric, normalize_rect, normalize_triangle, NormalizedRect};
