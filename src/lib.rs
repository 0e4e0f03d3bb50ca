//! Slide logic for a material-perception survey: the slide sequence, the
//! pressure-matching gesture trial and the records each slide produces.
//!
//! Physical quantities (pressure, positions, radii, tolerance) are held as
//! fixed-point integers in thousandths of a unit.

pub mod message;
pub mod press;
pub mod slide;
