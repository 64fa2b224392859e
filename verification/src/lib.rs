//! The fractal explorer's decisions, proved: the sample and cell grids,
//! palette and glyph selection, kernel switching, animation timing, the
//! keyboard table and what each key changes, boundary targeting, the
//! greyscale image format, and the repository's verification lanes. The
//! floating-point maths these decisions sit around — escape times, plane
//! geometry, colour interpolation — is the frontend's.

pub mod cli;
pub mod clock;
pub mod controls;
pub mod input;
pub mod kernel;
pub mod lane;
pub mod palette;
pub mod pgm;
pub mod ramp;
pub mod render;
pub mod runner;
pub mod sample;
pub mod shade;
pub mod target;
pub mod text;
