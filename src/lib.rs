//! Tiled Mandelbrot rendering: palette, escape counting, pixel averaging,
//! tile assembly and progress reporting, each with a verified contract.
pub mod kernel;
pub mod loader;
pub mod palette;
mod parallel;
pub mod sampler;
pub mod tiles;
