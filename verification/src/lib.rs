//! A verified core for a color-swatch viewer.
//!
//! The library turns a request `(count, seed, step)` into an ordered sequence
//! of encoded swatch images: a grid-layout optimizer chooses rows and columns
//! for the requested count, a deterministic hue stepper walks the color wheel,
//! a hue-to-RGB converter maps each angle to an 8-bit color, and an encoder
//! serializes each color as a bounded JPEG artifact with an identifier.
//!
//! Hues are represented in fixed point: an angle in `[0, 1)` is stored as a
//! numerator over [`hue::HUE_DEN`], so the whole pipeline is exact integer
//! arithmetic and every step of it carries a contract.

pub mod color;
pub mod encode;
pub mod error;
pub mod grid;
pub mod hue;
pub mod render;
