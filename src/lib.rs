//! Interaction logic for a particle-effect editor: a piecewise-linear curve
//! editor, the open/close rule and hue/lightness map of a colour picker popup,
//! and a typed store for the small pieces of widget state that must survive
//! from one frame to the next.
//!
//! All quantities are fixed-point integers. A normalised value in `[0, 1]` is
//! held as a count of millionths (`UNIT`); pointer offsets are held in
//! thousandths of a pixel.

pub mod curve;
pub mod picker;
pub mod store;
