use discord_spotify_bot::bot::is_own_command;
use discord_spotify_bot::bot::now_playing::{
    describe, format_duration, join, on_player_event, spotify_url, AudioItem, Cover, PlayerAction, PlayerEvent, UniqueFields,
};
use discord_spotify_bot::bot::voice::{find_channel, still_connected, VoiceState};

fn cover(url: &str, width: i32) -> Cover {
    Cover { url: url.to_string(), width }
}

fn track() -> AudioItem {
    AudioItem {
        uri: "spotify:track:4uLU6hMCjMI75M1A2tKUQC".to_string(),
        name: "Song".to_string(),
        covers: vec![cover("small", 64), cover("large", 640), cover("medium", 300)],
        duration_ms: 213_573,
        is_explicit: false,
        unique_fields: UniqueFields::Track {
            artists: vec!["Ann".to_string(), "Bob".to_string()],
            album: "Album".to_string(),
        },
    }
}

fn state(user: u64, channel: Option<u64>) -> VoiceState {
    VoiceState { user, channel }
}

#[test]
fn the_bot_runs_its_own_command_only() {
    assert!(is_own_command("start-spotify"));
    assert!(!is_own_command("start_spotify"));
    assert!(!is_own_command(""));
}

#[test]
fn users_are_found_in_their_channel() {
    let states = vec![state(1, Some(10)), state(2, None), state(3, Some(30))];
    assert_eq!(find_channel(&states, 1), Some(10));
    assert_eq!(find_channel(&states, 2), None);
    assert_eq!(find_channel(&states, 3), Some(30));
    assert_eq!(find_channel(&states, 4), None);
}

#[test]
fn the_bot_is_no_company() {
    let bot = 9;
    assert!(!still_connected(&None, 10, bot));
    assert!(!still_connected(&Some(vec![]), 10, bot));
    assert!(!still_connected(&Some(vec![state(bot, Some(10))]), 10, bot));
    assert!(!still_connected(&Some(vec![state(bot, Some(10)), state(1, Some(11)), state(2, None)]), 10, bot));
    assert!(still_connected(&Some(vec![state(bot, Some(10)), state(1, Some(10))]), 10, bot));
}

#[test]
fn texts_are_joined() {
    assert_eq!(join(&vec![], ", "), "");
    assert_eq!(join(&vec!["a".to_string()], ", "), "a");
    assert_eq!(join(&vec!["a".to_string(), "".to_string(), "b".to_string()], ", "), "a, , b");
}

#[test]
fn durations_are_in_minutes_and_seconds() {
    assert_eq!(format_duration(0), "0:00");
    assert_eq!(format_duration(999), "0:00");
    assert_eq!(format_duration(9_000), "0:09");
    assert_eq!(format_duration(59_999), "0:59");
    assert_eq!(format_duration(60_000), "1:00");
    assert_eq!(format_duration(213_573), "3:33");
    assert_eq!(format_duration(3_600_000), "60:00");
    assert_eq!(format_duration(u32::MAX), "71582:47");
}

#[test]
fn items_are_found_on_the_web() {
    assert_eq!(spotify_url("spotify:track:ID"), "https://open.spotify.com/track/ID");
    assert_eq!(spotify_url("spotify:episode:ID"), "https://open.spotify.com/episode/ID");
    assert_eq!(spotify_url("spotify:local:a:b:c"), "https://open.spotify.com/local/a:b:c");
    assert_eq!(spotify_url("spotify:"), "https://open.spotify.com/");
    assert_eq!(spotify_url("https://elsewhere"), "");
}

#[test]
fn a_track_is_shown() {
    let now = describe(&track(), "Jukebox");
    assert_eq!(now.status, "Song \u{00b7} Ann, Bob");
    assert_eq!(now.author, "Ann, Bob");
    assert_eq!(now.title, "Song");
    assert_eq!(now.footer, "\u{1f3a7} Jukebox  \u{00b7}  3:33");
    assert_eq!(now.url.as_deref(), Some("https://open.spotify.com/track/4uLU6hMCjMI75M1A2tKUQC"));
    assert_eq!(now.description.as_deref(), Some("*Album*"));
    assert_eq!(now.thumbnail.as_deref(), Some("large"));
}

#[test]
fn explicit_tracks_are_marked() {
    let now = describe(&AudioItem { is_explicit: true, ..track() }, "Jukebox");
    assert_eq!(now.title, "Song \u{1f174}");
    assert_eq!(now.status, "Song \u{00b7} Ann, Bob");
}

#[test]
fn local_files_may_lack_everything() {
    let item = AudioItem {
        uri: "file:song".to_string(),
        covers: vec![],
        unique_fields: UniqueFields::Local { artists: None, album: None },
        ..track()
    };
    let now = describe(&item, "Jukebox");
    assert_eq!(now.author, "Unknown artist");
    assert_eq!(now.url, None);
    assert_eq!(now.description, None);
    assert_eq!(now.thumbnail, None);
    let fields = UniqueFields::Local { artists: Some("Ann".to_string()), album: Some("Home".to_string()) };
    let now = describe(&AudioItem { unique_fields: fields, ..track() }, "Jukebox");
    assert_eq!(now.author, "Ann");
    assert_eq!(now.description.as_deref(), Some("*Home*"));
}

#[test]
fn episodes_are_by_their_show() {
    let fields = UniqueFields::Episode { show_name: "Show".to_string() };
    let now = describe(&AudioItem { unique_fields: fields, ..track() }, "Jukebox");
    assert_eq!(now.author, "Show");
    assert_eq!(now.description, None);
}

#[test]
fn the_last_of_the_widest_covers_is_shown() {
    let covers = vec![cover("a", 300), cover("b", 640), cover("c", 640), cover("d", 64)];
    let now = describe(&AudioItem { covers, ..track() }, "Jukebox");
    assert_eq!(now.thumbnail.as_deref(), Some("c"));
    let covers = vec![cover("a", -1), cover("b", -2)];
    let now = describe(&AudioItem { covers, ..track() }, "Jukebox");
    assert_eq!(now.thumbnail.as_deref(), Some("a"));
}

#[test]
fn the_player_is_followed() {
    match on_player_event(&PlayerEvent::TrackChanged(track()), "Jukebox") {
        PlayerAction::Show(now) => assert_eq!(now.title, "Song"),
        _ => panic!("the track is not shown"),
    }
    assert!(matches!(on_player_event(&PlayerEvent::Stopped, "Jukebox"), PlayerAction::ClearPresence));
    assert!(matches!(on_player_event(&PlayerEvent::Other, "Jukebox"), PlayerAction::Ignore));
    assert!(matches!(on_player_event(&PlayerEvent::Ended, "Jukebox"), PlayerAction::ClearPresence));
}
