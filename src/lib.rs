//! Rules of a small arcade game: a ship dodges asteroids and picks up stars.
//!
//! The engine owns the entities and the floating-point geometry; this crate
//! decides how many objects to keep alive, where new asteroids enter, how the
//! score moves and what the scoreboard reads.

pub mod spawning;
pub mod scoring;
