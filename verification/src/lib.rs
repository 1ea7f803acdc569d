//! Per-pixel raster transforms (luma grayscale, channel inversion) with a
//! scalar reference implementation and block-wise variants for lane widths
//! 8, 16, 32 and 64, all proved to produce bit-identical output.

pub mod adapter;
pub mod engine;
pub mod equivalence;
