//! A 2D ray-casting engine: an observer point emits a fan of rays, one per
//! sweep direction; each ray is clipped to the nearest wall segment it
//! crosses. Coordinates are exact fixed-point integers, so every
//! intersection is computed and reasoned about as an exact rational.

pub mod enclosure;
pub mod fan;
pub mod geometry;
pub mod laws;
pub mod scene;
pub mod solver;
