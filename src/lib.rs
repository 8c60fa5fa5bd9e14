//! Escape-time rendering of the Mandelbrot set: the palettes, the control
//! of the escape-time loop, basic and smooth colouring, and the picture
//! buffer, with their contracts proved by Verus. The floating-point orbit
//! and the mapping of pixels to the complex plane are left to the caller,
//! which hands each pixel's escape time over as a `Sample`.
pub mod color;
pub mod config;
pub mod coloring;
pub mod escape;
pub mod palette;
pub mod raster;
