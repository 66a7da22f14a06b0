//! A small image-manipulation library: an RGB pixel-buffer model with exact
//! transforms (rotate, invert, crop, brighten, grayscale), two synthetic
//! image generators (a cyclic gradient and an escape-time fractal
//! background), and the command dispatcher's input-file rule.

pub mod buffer;
pub mod dispatch;
pub mod fractal;
pub mod gradient;
pub mod pixel;
