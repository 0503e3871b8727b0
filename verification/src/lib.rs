//! A declarative image pipeline: a source is resolved to one pixel buffer,
//! and an ordered list of operations is applied to it from left to right.

pub mod adjust;
pub mod build_info;
pub mod codec;
pub mod compose;
pub mod errors;
pub mod font;
pub mod geometry;
pub mod input;
pub mod operator;
pub mod pipeline;
pub mod raster;
pub mod resize;
pub mod text;

pub use crate::build_info::{version_str, BuildInfo};
pub use crate::codec::{decode_image, image_to_bytes};
pub use crate::compose::fill_color;
pub use crate::errors::{ErrorKind, Errors, Failure};
pub use crate::input::{FontInput, ImageInputType};
pub use crate::operator::ImageOperator;
pub use crate::pipeline::{ImageInput, ImageOperation};
pub use crate::raster::{PixelKind, Raster};
pub use crate::resize::ResizeMode;
pub use crate::font::ScaleTuple;
pub use crate::text::{draw_text, LineMeasure, PlacedLine};
