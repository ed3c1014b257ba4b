//! A turn-stepped arena combat simulation: a player ship and a grid of enemy
//! ships occupy a bounded grid, exchange rocket fire, and the simulation
//! decides a win/loss outcome.
//!
//! The crate holds the simulation engine only; drawing to a terminal and
//! reading keys are left to the embedding program.

pub mod entity;
pub mod game;
pub mod geometry;
pub mod laws;
mod rng;
