//! The integer core of a sampling renderer: an RGB image buffer with
//! verified pixel addressing and saturating channel quantization, PNG
//! framing of that buffer, first-match selection among overlapping shapes,
//! and a purely emitting material.

pub mod image;
pub mod encode;
pub mod select;
pub mod material;
