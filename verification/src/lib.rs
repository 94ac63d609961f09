//! A small two-dimensional fluid of point particles in fixed-point
//! arithmetic, for machines without floating point, and the frame of the
//! monochrome display that shows it.
//!
//! - [`fixed`]: the Q16.16 scalar and its arithmetic.
//! - [`vector`]: vectors of two scalars, with the octagonal length estimate.
//! - [`pair`]: the near and far channel pair, and the viscosity coefficients.
//! - [`particle`]: one particle.
//! - [`pipeline`]: what each of the six stages of a tick does, as
//!   mathematical functions.
//! - [`fluid`]: the fluid and its stepper.
//! - [`laws`]: what holds of every tick.
//! - [`oled`]: the frame of the display.
//! - [`render`]: drawing the particles into the frame.
//! - [`transfer`]: sending a buffer block by block.

pub mod fixed;
pub mod fluid;
pub mod laws;
pub mod oled;
pub mod pair;
pub mod particle;
pub mod pipeline;
pub mod render;
pub mod transfer;
pub mod vector;
