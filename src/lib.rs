//! Decoding of animated WebP images into frames of 24-bit RGB pixels.
//!
//! The bitstream itself is decoded by the `webp-animation` crate; this library
//! normalizes every decoded frame to one row of three bytes per pixel and
//! assembles the frames, with their timestamps, into an [`Animation`].

pub mod frame;
pub mod normalize;
pub mod webp;

pub use frame::{Animation, Frame, PixelLayout, RawFrame};
pub use normalize::{normalize_frame, normalize_frames, rgb_rows, rgba_rows};
pub use webp::{decode_buffer, try_decode_buffer, DecodeError};
