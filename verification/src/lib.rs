//! Mesh flattening, bounding boxes, texture row order and the frame loop's
//! decisions for a small model viewer, with machine-checked contracts.
//!
//! Single-precision numbers are carried as their IEEE 754 bit patterns
//! (`Scalar`), so that every value the library moves or orders is an integer.

pub mod scalar;
pub mod vector;
pub mod bounds;
pub mod mesh;
pub mod flatten;
pub mod import;
pub mod texture;
pub mod oscillator;
pub mod driver;
