//! Control logic of a terminal front-end for an internet radio stream.
//!
//! The front-end drives an external media player over the player's line-based
//! JSON control socket. This crate holds everything that is decided or
//! computed on the way: the lines written to the socket, the reading of the
//! player's replies, which titles are worth showing, and how the session
//! reacts to keys. Spawning the player, the socket itself and the terminal
//! belong to the program built around it.

pub mod control;
pub mod json;
pub mod reply;
pub mod settings;
pub mod text;
pub mod title;
pub mod wire;
