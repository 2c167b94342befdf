//! Waterway channel carving on a voxel grid, and the legacy section codec.

pub mod bresenham;
pub mod legacy_blocks;
pub mod text;
pub mod waterways;
