//! Simulation core of a one-screen arcade game: a hook operator walks along
//! the bottom of the field and throws a hook at creatures that scroll past.
//!
//! Positions and speeds are fixed-point numbers in hundredths of a pixel
//! (see [`config::SUBPIXELS`]).

pub mod clock;
pub mod config;
pub mod controls;
pub mod draw;
pub mod game;
pub mod geometry;
pub mod object;
pub mod pudge;
pub mod spawner;

use vstd::prelude::*;

verus! {

} // verus!
