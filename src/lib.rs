//! Storage, encoding and colour-selection logic of a ray tracer: a 4×4
//! matrix container, a row-major pixel canvas that is filled in raster
//! order, 8-bit RGB pixels with their packed and PPM encodings, and the
//! cell-parity rules of the procedural patterns.
mod canvas;
mod matrix;
mod pattern;
mod ppm;
mod rgb;

pub use canvas::{pixel_index, Canvas};
pub use matrix::Matrix;
pub use pattern::{alternate, checker, is_even};
pub use ppm::{decimal, digit_char, ppm_body, ppm_header, ppm_pixel, ppm_text, push_decimal};
pub use rgb::{packed, Rgb};
