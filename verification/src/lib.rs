//! The rules of a small arcade shooter: a ship at the bottom of the playfield
//! fires at asteroids that fall towards a loss zone, and power-ups drop now
//! and then. Everything here is simulation; drawing and input devices live
//! with the caller.
//!
//! Lengths are whole numbers of sub-pixel units (see [`geometry::UNIT`]) and
//! times are whole microseconds, so a tick always gives the same result on
//! every machine.

pub mod geometry;
pub mod projectile;
pub mod asteroid;
pub mod power_up;
pub mod player;
pub mod state;
mod chance;
pub mod game;
pub mod motion;
pub mod spawning;
pub mod collisions;
pub mod pickups;
pub mod tick;
pub mod validate;
