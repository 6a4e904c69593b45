//! What the bot says to Spotify and what it makes of the answers.

pub mod auth;
pub mod connect;
