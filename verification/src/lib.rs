//! Core gameplay logic for a small side-scrolling "flappy" game.
//!
//! The host engine owns rendering, asset loading, input collection and the
//! physics integration of positions from velocities.  Everything the game
//! itself decides — how the player's vertical velocity evolves, when pipes
//! are spawned and despawned, when a pipe is scored, and how the
//! Playing/Paused/Dead state machine moves — lives here, stated over whole
//! pixels and whole milliseconds and verified.  The driver feeds each frame's
//! observations in through [`game::FrameInput`] and carries the decisions in
//! [`game::FrameOutput`] back to the engine.

pub mod game;
pub mod geom;
pub mod gui;
pub mod pipes;
pub mod player;
mod rng;
pub mod state;
pub mod timer;
