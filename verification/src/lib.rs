//! A Discord bot that plays Spotify in a voice channel: the decisions it makes,
//! apart from the connections it makes them for.

pub mod bot;
pub mod config;
pub mod json;
pub mod server;
pub mod spotify;
pub mod store;
pub mod text;
