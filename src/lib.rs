//! Colour-space kernel for flat pixel buffers.
//!
//! The verified part converts 8-bit RGB buffers to Y'CbCr in place, using
//! exact fixed-point arithmetic, and checks buffer sizes at the host seam.
#![allow(non_snake_case)]

pub mod layout;
pub mod ycbcr;

pub use layout::sample_count;
pub use ycbcr::{clip255, pixel_to_ycbcr, toYCbCr};
