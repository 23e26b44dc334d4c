//! A turn-paced snake game engine on a bordered grid.
//!
//! `grid` holds the coordinate model, `keys` the keys that the engine reads,
//! `game` the session and its per-tick transition, `shell` the lifecycle
//! decisions around one optional session, and `laws` what holds across ticks.

pub mod grid;
pub mod keys;
pub mod random;
pub mod game;
pub mod shell;
pub mod laws;
