//! The Discord side of the bot.

pub mod commands;
pub mod now_playing;
pub mod voice;

use vstd::prelude::*;

use crate::text::same_text;

verus! {

/// The name of the slash command.
pub const COMMAND_NAME: &'static str = "start-spotify";

/// What Discord says of the slash command.
pub const COMMAND_DESCRIPTION: &'static str = "Connect your Spotify and start playing in your voice channel";

/// Whether a command of this name is for the bot to run.
pub fn is_own_command(name: &str) -> (own: bool)
    ensures
        own == (name@ == COMMAND_NAME@),
        own == (name@ == "start-spotify"@),
{
    same_text(name, COMMAND_NAME)
}

} // verus!
