//! Escape-time rendering of the Mandelbrot set.
//!
//! The verified core covers the integer pipeline: the escape-count bookkeeping
//! for one plane point, the iteration-count-to-color transfer function, and
//! the assembly of the row-major RGBA pixel buffer. The floating-point
//! iteration z <- z^2 + c and the host drawing surface live outside it.

pub mod color;
pub mod escape;
pub mod render;
