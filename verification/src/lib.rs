//! The rules of a terminal snake game, with every rule proved.
//!
//! A snake moves over a grid of double-wide cells inside a walled board,
//! grows when it eats an apple and dies when it runs into a wall or into
//! itself. This crate holds the state of such a game, the step that one tick
//! of the clock makes, and the text that draws a frame on an ANSI terminal.
//! Reading keys, writing the frame and keeping time are left to the caller.

pub mod ansi;
pub mod chance;
pub mod game;
pub mod laws;
pub mod play;
pub mod render;
pub mod snake;
pub mod vector;

pub use crate::game::is_playable;
pub use crate::game::Game;
pub use crate::game::State;
pub use crate::play::board_size;
pub use crate::play::MAX_HEIGHT;
pub use crate::play::MAX_WIDTH;
pub use crate::snake::Snake;
pub use crate::vector::Vec2;
