//! What the player's screen shows and how it answers the keys: the state
//! behind each part of the screen, and what each message does to it. Drawing
//! the screen and talking to the catalog and the sound device are left to the
//! program around.

pub mod application;
pub mod controls;
pub mod library;
pub mod menu;
pub mod player;
