//! Core of a 2D boids flocking simulation: a small vector type, the flock and
//! view state driven by user input, the placement of new boids, and the text
//! drawn over the simulation.

pub mod hud;
pub mod simulation;
pub mod spawn;
pub mod vector;

pub use vector::Vector2;
