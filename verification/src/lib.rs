//! The simulation core of a small arcade game: one alien wanders along a
//! lane and fires bullets at the player below, who should catch the green
//! ones and dodge the red ones.
//!
//! Nothing here draws, plays sounds or reads a clock. The host hands in
//! elapsed time and key state; the core hands back positions, the score and
//! the game-over flag. Positions are fixed-point (see [`units`]) and instants
//! are milliseconds counted from the start of the simulation.

pub mod alien;
pub mod bullet;
pub mod game;
pub mod player;
pub mod random;
pub mod simple_collision;
pub mod sprite;
pub mod units;
