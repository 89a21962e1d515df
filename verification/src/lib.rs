//! The simulation core of a grid snake game: the snake's body, the food, the
//! buffered direction input and the per-frame update that ties them together.
//!
//! Everything here works on plain values. Time enters as a count of
//! nanoseconds read by the caller from a monotonic clock; drawing and input
//! devices stay with the caller.

pub mod position;
pub mod direction;
pub mod settings;
pub mod snek;
pub mod food;
pub mod command;
pub mod board;
pub mod game;
pub mod menu;
pub mod amend;
pub mod input;
pub mod listener;
pub mod fonts;
pub mod font;
