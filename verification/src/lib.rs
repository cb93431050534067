//! A small 2D vector-drawing front end: geometry and colour values, an
//! append-only path with lazily reconstructed segments, and the drawing
//! session types that hand paths to a rendering backend.
//!
//! Real-valued quantities are carried as [`scalar::Scalar`], the bit pattern of
//! an IEEE-754 single-precision number. The library stores, moves and compares
//! such values; it never computes with them.

pub mod canvas;
pub mod color;
pub mod device;
pub mod event;
pub mod geom;
pub mod image_info;
pub mod paint;
pub mod path;
pub mod scalar;
pub mod surface;
