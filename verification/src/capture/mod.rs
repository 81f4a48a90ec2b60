//! Pixels as plain values: colours and frames, and the trait of what
//! samples them.

pub mod capturer;
pub mod image;

pub use capturer::Capturer;
pub use image::{color_distance, Rgb, RgbImage};
