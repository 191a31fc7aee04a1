//! Rules of a one-screen lane game: a player moves between horizontal lanes
//! while a single item scrolls in from the right edge. Food must be eaten,
//! poison must be dodged; a mistake ends the round.

pub mod entity;
pub mod game;
pub mod input;
pub mod laws;
pub mod random;
pub mod render;
pub mod rules;
pub mod sim;
