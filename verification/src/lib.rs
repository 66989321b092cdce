//! Core simulation of a small arcade game: a craft dodges falling astroids
//! and collects coins while a score accumulates.
//!
//! All quantities are fixed-point integers. Time is counted in microseconds,
//! lengths in millionths of a playfield unit and angles in microradians, so
//! that a speed in units per second times a time step in microseconds is a
//! displacement in millionths of a unit, with no rounding anywhere.

pub mod astroid;
pub mod coin;
pub mod events;
pub mod game;
pub mod player;
pub mod random;
pub mod round;
pub mod score;
pub mod timer;
pub mod transform;
