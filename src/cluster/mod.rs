//! Script aware cluster segmentation.
//!
//! Text is broken into clusters that are appropriate for shaping with a
//! given script. For most scripts, clusters are equivalent to Unicode
//! grapheme clusters. More complex scripts, however, may produce shaping
//! clusters that contain multiple graphemes.

pub mod char;
pub mod cluster;
pub mod complex;
pub mod info;
pub mod myanmar;
pub mod parse;
pub mod simple;
