# discord-spotify-bot

A Discord bot that registers itself as a Spotify Connect device and plays what it
receives in a voice channel. A user gives the command `/start-spotify`, authorizes the
bot through a link, and picks the bot as a device in the Spotify app.

- `src/` is the library: the decisions that the bot makes, with contracts that Verus
  proves.
  - `config`: the settings, from environment variables.
  - `store`: who waits for which authorization.
  - `spotify::auth`: the authorization link, the exchange of a code, the profile.
  - `spotify::connect`: Jam links, from dealer messages to deep links.
  - `server`: what a user who comes back from Spotify is answered.
  - `bot`: the command as a row of stages, what is shown of a track, and who is in which
    voice channel.
  - `json`, `text`: what the others are written with.
- `app/` is the program around it: the web server, the Discord client, the player and
  the voice connection.
- `tests/` runs the library.

The functions named `law_…` state what holds of the library as a whole. What is believed
of `serde_json`, `dashmap`, `url`, `base64` and of `std::str::from_utf8` stands in the
contracts of the functions that call them, each marked `external_body`.

In `Cargo.toml`, `vergen` is held at the version with which `librespot-core` builds.
`songbird`, which `app/voice.rs` needs, is left out there for the number of crates that it
brings with it; to build the program, add it.
