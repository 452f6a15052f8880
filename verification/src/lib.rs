//! The rules of a one-sprite walking demo: how a frame's input becomes
//! movement commands, how the commands move the player, and where the
//! sprite is drawn.

pub mod frame;
pub mod geometry;
pub mod input;
pub mod movement;
pub mod render;
