//! Core of a small top-down action game: a single player walks along the
//! world axes under WASD-style input, briefly swings a sword when an attack
//! is requested, and is drawn through a screen transform that flips the y
//! axis.
//!
//! Geometry lives in two coordinate spaces. World space has its origin at
//! the window midpoint with +y pointing up; screen space has its origin at
//! the window's top-left corner with +y pointing down. All lengths are kept
//! in thousandths of a world unit (one world unit maps to one pixel), and
//! all times in whole milliseconds, so every quantity here is exact integer
//! arithmetic.

pub mod driver;
pub mod geom;
pub mod player;
pub mod render;
