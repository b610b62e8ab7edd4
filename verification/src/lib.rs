//! Verified core of an image resource manager.
//!
//! An [`Image`] owns a buffer of packed 32-bit pixels. It is created blank
//! or from raw pixels, and exports its buffer as raw bytes. Resampling,
//! compositing and encoding are the work of an external raster engine;
//! this crate decides what the engine is asked to do and what becomes of
//! its replies:
//!
//! * [`Image::new_from_pixels_scaled`] validates a scaled construction,
//!   computes the aspect-preserving fit and returns a [`Scaling`] whose
//!   states name the engine calls to make;
//! * [`Image::blend_request`] validates a blend and gives the engine's
//!   arguments, and [`Image::blend_with`] stores what the engine blended;
//! * [`Image::write_png`] and [`Image::write_jpeg`] validate the path and
//!   return a [`Writing`] that leads through open, encode and release.
//!
//! Every size that reaches the engine is converted by [`to_c_int`], and
//! every failure signal of the engine is turned into an [`ImageError`] by
//! [`engine_result`].

pub mod blend;
pub mod bytes;
pub mod dimension;
pub mod encode;
pub mod error;
pub mod image;
pub mod scale;

pub use blend::BlendRequest;
pub use bytes::ByteOrder;
pub use dimension::to_c_int;
pub use encode::{ImageFormat, Writing};
pub use error::{engine_result, ImageError, ImageErrorKind};
pub use image::Image;
pub use scale::{fit, Interpolation, Quad, Region, ScalePlan, Scaling};
