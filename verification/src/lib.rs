//! The rules of "Pop The Lock": a pick circles a lock, a dot waits on the
//! ring, and the player has to click while the pick overlaps the dot.
//!
//! The library holds the game's decisions over plain values: the player's
//! progress through the levels, the state machine of the game, the pick's
//! overlap bookkeeping and input handling, where a new dot may appear, and the
//! colours of the scene. Rendering, audio, timers and persistence live in the
//! application around it.

pub mod utils;
pub mod game;
pub mod trigger;
pub mod level_manager;

pub mod audio_manager;
