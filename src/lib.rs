//! Pixel access over a borrowed RGBA8 byte buffer: a read-only view and an
//! exclusive read/write accessor, with byte layout row-major, top-left
//! origin, four bytes per pixel and no row padding.
pub mod gradient;
pub mod laws;
pub mod model;
pub mod mutable;
pub mod pixel;
pub mod view;

pub use crate::gradient::{fill_gradient, BlueWave};
pub use crate::model::PIXEL_SIZE;
pub use crate::mutable::MutableImage;
pub use crate::pixel::rgba;
pub use crate::view::MutableImageView;
