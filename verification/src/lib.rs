//! A verified simulation engine for a grid snake game.
//!
//! The snake moves on a bounded grid, eats food to grow and score, and the
//! game ends when it runs into the border or into its own body. Everything
//! the engine decides — movement, collision, eating, scoring, levels, the
//! phase state machine — is specified and proved here; a host loop feeds in
//! decoded key events and elapsed time and draws the exposed snapshot.

pub mod draw;
pub mod game;
pub mod snake;
