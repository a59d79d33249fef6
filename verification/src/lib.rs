//! Core simulation of a side-scrolling obstacle-avoidance arcade game.
//!
//! All coordinates are integers in sub-pixel units: one pixel is
//! [`constants::PX`] sub-units, and velocities are held in units of `1/60`
//! pixel per second, so that one fixed simulation step advances a position
//! by exactly the velocity number.

pub mod components;
pub mod constants;
pub mod obstacle;
pub mod player;
pub mod resource;
pub mod state;
pub mod systems;
pub mod world;
