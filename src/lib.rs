//! The simulation core of a two-dimensional space shooter: a craft, asteroids
//! that split, missiles, their collisions, and the rounds of play. Every
//! length is an integer count of thousandths of a pixel.

pub mod asteroid;
pub mod collision;
pub mod config_screen;
pub mod geometry;
pub mod missile;
mod random;
pub mod round;
pub mod stellar_object;
pub mod vaisseau;
