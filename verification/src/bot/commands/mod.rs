//! The slash commands.

pub mod start_spotify;
