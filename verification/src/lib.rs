//! Core of an escape-time fractal rasterizer: render configuration,
//! resolution and iteration policy, the iteration skeleton of the kernels,
//! colour packing, and the block-replicating frame buffer.

pub mod color;
pub mod config;
pub mod frame;
pub mod orbit;
pub mod policy;
