//! Rules of the missile-intercept game: the player's health, score and
//! firing state, how detected areas are classified, which speed a new bullet
//! gets, and the text of the heads-up display.
//!
//! Everything here works on plain values; the engine-facing nodes hand the
//! library what they observed and carry out what it decides.

pub mod player;
pub mod hud;
pub mod area;
pub mod explosion;
pub mod bullet_stopper;
pub mod cannon_barrel;
pub mod bullet_brain;
pub mod laws;
