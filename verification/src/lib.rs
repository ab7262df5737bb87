//! The core of the Radioss internet radio player.
//!
//! [`discord`] holds the presence session, which shows the station that is
//! playing in the Discord desktop client; [`activity`] what it publishes;
//! [`error`] what it reports; [`clock`] the clocks it reads; and [`host`] the
//! few decisions of the player's shell. Nothing here touches a socket, a file
//! or a window: the shell does what these functions decide and tells them
//! what came of it.

pub mod activity;
pub mod clock;
pub mod discord;
pub mod error;
pub mod host;
