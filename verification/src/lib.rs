//! Simulation core of a formation shooter: waves of enemies fly elliptical
//! orbits in small formations and fire at the player's ship, which fires back.
//!
//! The core is exact: positions and lengths are whole position units
//! (`geometry::UNITS_PER_PIXEL` to the pixel), times are whole microseconds,
//! angles whole microradians, sines and cosines whole millionths. What
//! needs real arithmetic, the arctangent of a heading and the sine and
//! cosine of an angle, is handed in by the caller.
//!
//! A `game::Game` owns every resource of a game. Each system is a method
//! that takes the context from one valid state to the next, and
//! `Game::tick` runs them in order: input, spawning, motion, collisions.
//! The module `laws` states what holds of every run.

pub mod clock;
pub mod collision;
pub mod entities;
pub mod formation;
pub mod game;
pub mod geometry;
pub mod laws;
pub mod lifecycle;
pub mod motion;
pub mod movement;
pub mod player_state;
pub mod random;
pub mod tick;
