//! Gesture-driven physics for a falling-ingredients game: the drag tracker,
//! gesture detection and impulse computation, the boundary sweep, cauldron
//! collisions and movement, and timed spawning, each as a decision over plain
//! values that the game's engine carries out.

pub mod components;
pub mod drag;
pub mod geometry;
pub mod ingredients_list;
pub mod mover;
mod random;
pub mod resources;
pub mod spawner;
pub mod sweep;
