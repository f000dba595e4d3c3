//! A two-paddle ball game simulated on integer coordinates.
//!
//! Lengths are in thousandths of a pixel, speeds in pixels per second
//! (equivalently thousandths of a pixel per millisecond) and frame times in
//! milliseconds, so that every update is exact integer arithmetic.
pub mod components;
pub mod constants;
pub mod laws;
pub mod systems;
