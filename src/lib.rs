//! Raster image format conversion: identifier resolution, encoder option
//! resolution and a decode/encode pipeline driven step by step.
pub mod codec;
pub mod format;
pub mod pipeline;
pub mod tuning;
