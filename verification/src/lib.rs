//! Core simulation of a single-screen "flappy" reflex game: player vertical
//! physics under gravity with flap impulses, scrolling obstacles with a
//! vertical gap, collision detection, and the menu/playing/end mode machine.
//!
//! Vertical positions and velocities are carried in tenths of a grid cell,
//! so the physics constants (gravity step, velocity cap, flap impulse) are
//! exact integers. The display and input backend lives outside this crate;
//! it feeds elapsed time and key events in and draws the frames handed back.

pub mod game;
pub mod obstacle;
pub mod player;
mod rng;
