//! Core simulation of a small 2D arcade survival game: a player ship is
//! chased by enemies that spawn off-screen on a timer, loses health on
//! collision, and can pause or restart the run.
//!
//! All world lengths (positions, velocities, window sizes, sprite sizes) are
//! integers in milliunits: 1000 milliunits are one world unit. Size scale
//! factors are integers in hundredths: 100 stands for a factor of one.
//! Rendering, window management, physics integration and input reading belong
//! to an engine; this crate holds the per-tick decision logic and state.

pub mod types;
pub mod utilities;
mod rng;
pub mod asteroids;
pub mod player;
pub mod game;
