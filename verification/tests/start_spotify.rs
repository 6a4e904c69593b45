use discord_spotify_bot::bot::commands::start_spotify::{
    advance, jam_message, watch, Action, Event, Place, Stage, Step, WatchAction, WatchEvent,
};
use discord_spotify_bot::bot::voice::VoiceState;
use discord_spotify_bot::config::Config;
use discord_spotify_bot::server::callback_end;
use discord_spotify_bot::spotify::auth::{build_auth_url, Profile, ProfileReply, TokenResponse};
use discord_spotify_bot::store::{SpotifyTokens, Store};

const PLACE: Place = Place { guild: 5, channel: 50 };

fn config() -> Config {
    Config {
        discord_token: String::new(),
        discord_client_id: 1,
        discord_guild_id: 2,
        spotify_client_id: "client".to_string(),
        spotify_client_secret: "secret".to_string(),
        spotify_redirect_uri: "uri".to_string(),
        auth_server_port: 3000,
    }
}

fn command(guild: Option<u64>, states: Option<Vec<VoiceState>>) -> Event {
    Event::Command { guild, states, user: 42 }
}

fn tokens() -> SpotifyTokens {
    SpotifyTokens { access_token: "access".to_string(), refresh_token: None }
}

fn waiting() -> Stage {
    Stage::AwaitingTokens { place: PLACE, user_id: "42".to_string() }
}

fn with_names(make: fn(Place, String, String) -> Stage) -> Stage {
    make(PLACE, "Ada".to_string(), "Jukebox".to_string())
}

fn awaiting_device(place: Place, spotify_name: String, device_name: String) -> Stage {
    Stage::AwaitingDevice { place, spotify_name, device_name }
}

fn awaiting_system(place: Place, spotify_name: String, device_name: String) -> Stage {
    Stage::AwaitingVoiceSystem { place, spotify_name, device_name }
}

fn awaiting_join(place: Place, spotify_name: String, device_name: String) -> Stage {
    Stage::AwaitingJoin { place, spotify_name, device_name }
}

fn show(action: &Action) -> String {
    match action {
        Action::Reply(text) => format!("reply {text}"),
        Action::SendLink(text) => format!("link {text}"),
        Action::FollowUp(text) => format!("follow up {text}"),
        Action::Greet(text) => format!("greet {text}"),
        Action::Announce(text) => format!("announce {text}"),
        Action::DropWaiter { ticket } => format!("drop {ticket}"),
        Action::AwaitTokens { seconds } => format!("await {seconds}"),
        Action::FetchProfile { access_token } => format!("fetch {access_token}"),
        Action::CreateDevice { device_name, access_token } => format!("create {device_name} {access_token}"),
        Action::FindVoiceSystem => "find".to_string(),
        Action::JoinVoice { place } => format!("join {} {}", place.guild, place.channel),
        Action::ShutDownDevice => "shut down".to_string(),
        Action::Play { sample_rate, channels } => format!("play {sample_rate} {channels}"),
        Action::StartTasks { place, device_name } => format!("tasks {} {} {device_name}", place.guild, place.channel),
    }
}

fn actions(step: &Step) -> Vec<String> {
    step.actions.iter().map(show).collect()
}

#[test]
fn the_command_needs_a_guild() {
    let step = advance(&config(), &mut Store::new(), Stage::Given, command(None, None));
    assert!(matches!(step.stage, Stage::Failed));
    assert_eq!(actions(&step), vec!["reply This command must be used inside a server."]);
}

#[test]
fn the_command_needs_a_voice_channel() {
    let others = Some(vec![VoiceState { user: 41, channel: Some(50) }, VoiceState { user: 42, channel: None }]);
    for states in [None, Some(vec![]), others] {
        let step = advance(&config(), &mut Store::new(), Stage::Given, command(Some(5), states));
        assert!(matches!(step.stage, Stage::Failed));
        assert_eq!(actions(&step), vec!["reply You need to be in a voice channel first."]);
    }
}

#[test]
fn a_run_without_mishap_plays() {
    let cfg = config();
    let mut store = Store::new();
    store.set_bot_name("Jukebox");

    let states = Some(vec![VoiceState { user: 42, channel: Some(50) }]);
    let step = advance(&cfg, &mut store, Stage::Given, command(Some(5), states));
    let link = build_auth_url(&cfg, "42");
    assert_eq!(
        actions(&step),
        vec![format!(
            "link **Connect your Spotify account:**\n[Click here to authorize]({link})\n\n_This link expires in 5 minutes._"
        )]
    );

    let step = advance(&cfg, &mut store, step.stage, Event::LinkSent { ticket: 7 });
    assert_eq!(actions(&step), vec!["await 300"]);

    let response = TokenResponse {
        access_token: "access".to_string(),
        refresh_token: None,
        expires_in: 3600,
        token_type: "Bearer".to_string(),
    };
    let delivery = callback_end(&mut store, "42", Ok(response)).delivery.unwrap();
    assert_eq!(delivery.ticket, 7);

    let step = advance(&cfg, &mut store, step.stage, Event::TokensArrived(delivery.tokens));
    assert_eq!(actions(&step), vec!["fetch access"]);

    let profile = Profile { display_name: Some("Ada".to_string()), id: "ada1".to_string() };
    let step = advance(&cfg, &mut store, step.stage, Event::ProfileReply(ProfileReply::Found(profile)));
    assert_eq!(
        actions(&step),
        vec!["greet \u{2705} Connected as **Ada**. Joining your voice channel and registering as a Spotify Connect device\u{2026}"]
    );

    let step = advance(&cfg, &mut store, step.stage, Event::Greeted);
    assert_eq!(actions(&step), vec!["create Jukebox access"]);

    let step = advance(&cfg, &mut store, step.stage, Event::DeviceReady);
    assert_eq!(actions(&step), vec!["find"]);

    let step = advance(&cfg, &mut store, step.stage, Event::VoiceSystem { ready: true });
    assert_eq!(actions(&step), vec!["join 5 50"]);

    let step = advance(&cfg, &mut store, step.stage, Event::Joined);
    assert_eq!(
        actions(&step),
        vec![
            "play 44100 2",
            "follow up \u{2705} **Ada** \u{2014} open Spotify, pick **Jukebox** as your device, then hit **Start a Jam** to share the link here!",
            "announce \u{1f3b5} **Ada** started a listening session on **Jukebox**! Open Spotify \u{2192} **Start a Jam** \u{2192} I'll post the link here automatically.",
            "tasks 5 50 Jukebox",
        ]
    );
    match step.stage {
        Stage::Playing { place, device_name } => {
            assert_eq!(place, PLACE);
            assert_eq!(device_name, "Jukebox");
        }
        _ => panic!("nothing plays"),
    }
}

#[test]
fn a_second_command_of_a_user_displaces_the_first() {
    let mut store = Store::new();
    let linking = || Stage::Linking { place: PLACE, user_id: "42".to_string() };
    advance(&config(), &mut store, linking(), Event::LinkSent { ticket: 7 });
    let step = advance(&config(), &mut store, linking(), Event::LinkSent { ticket: 8 });
    assert_eq!(actions(&step), vec!["drop 7", "await 300"]);
    assert_eq!(store.settle("42"), Some(8));
}

#[test]
fn a_cancelled_wait_is_cleared() {
    let mut store = Store::new();
    store.wait("42".to_string(), 8);
    store.wait("43".to_string(), 9);
    let step = advance(&config(), &mut store, waiting(), Event::WaitCancelled);
    assert!(matches!(step.stage, Stage::Failed));
    assert_eq!(actions(&step), vec!["drop 8", "follow up \u{274c} Authorization was cancelled."]);
    assert_eq!(store.settle("42"), None);
    assert_eq!(store.settle("43"), Some(9));
}

#[test]
fn a_wait_times_out() {
    let mut store = Store::new();
    store.wait("42".to_string(), 7);
    let step = advance(&config(), &mut store, waiting(), Event::WaitTimedOut);
    assert!(matches!(step.stage, Stage::Failed));
    assert_eq!(
        actions(&step),
        vec!["drop 7", "follow up \u{274c} Authorization timed out. Please run the command again."]
    );
    assert_eq!(store.settle("42"), None);
}

#[test]
fn a_user_may_stay_unknown() {
    let stage = Stage::AwaitingProfile { place: PLACE, access_token: "access".to_string() };
    let step = advance(&config(), &mut Store::new(), stage, Event::ProfileReply(ProfileReply::Unanswered));
    assert_eq!(step.actions.len(), 1);
    assert!(actions(&step)[0].starts_with("greet \u{2705} Connected as **Unknown**. "));
}

#[test]
fn the_device_bears_the_name_that_the_bot_has_after_the_greeting() {
    let mut store = Store::new();
    let stage = Stage::AwaitingProfile { place: PLACE, access_token: "access".to_string() };
    let step = advance(&config(), &mut store, stage, Event::ProfileReply(ProfileReply::Unreadable));
    store.set_bot_name("Jukebox");
    let step = advance(&config(), &mut store, step.stage, Event::Greeted);
    assert_eq!(actions(&step), vec!["create Jukebox access"]);
    store.set_bot_name("Other");
    match step.stage {
        Stage::AwaitingDevice { spotify_name, device_name, .. } => {
            assert_eq!(spotify_name, "Unknown");
            assert_eq!(device_name, "Jukebox");
        }
        _ => panic!("no device is awaited"),
    }
}

#[test]
fn there_may_be_no_device() {
    let event = Event::DeviceFailed("bad token".to_string());
    let step = advance(&config(), &mut Store::new(), with_names(awaiting_device), event);
    assert!(matches!(step.stage, Stage::Failed));
    assert_eq!(actions(&step), vec!["follow up \u{274c} Spotify Connect error: bad token"]);
}

#[test]
fn there_may_be_no_voice_system() {
    let event = Event::VoiceSystem { ready: false };
    let step = advance(&config(), &mut Store::new(), with_names(awaiting_system), event);
    assert!(matches!(step.stage, Stage::Failed));
    assert_eq!(actions(&step), vec!["follow up \u{274c} Internal error: voice system not ready."]);
}

#[test]
fn the_device_is_shut_down_when_the_channel_cannot_be_joined() {
    let event = Event::JoinFailed("no permission".to_string());
    let step = advance(&config(), &mut Store::new(), with_names(awaiting_join), event);
    assert!(matches!(step.stage, Stage::Failed));
    assert_eq!(
        actions(&step),
        vec!["follow up \u{274c} Could not join voice channel: no permission", "shut down"]
    );
}

#[test]
fn what_is_not_awaited_changes_nothing() {
    let mut store = Store::new();
    store.wait("42".to_string(), 7);
    let step = advance(&config(), &mut store, waiting(), Event::Joined);
    assert!(matches!(step.stage, Stage::AwaitingTokens { .. }));
    assert!(step.actions.is_empty());
    let step = advance(&config(), &mut store, Stage::Failed, Event::TokensArrived(tokens()));
    assert!(matches!(step.stage, Stage::Failed));
    assert!(step.actions.is_empty());
    assert_eq!(store.settle("42"), Some(7));
}

#[test]
fn a_jam_is_announced() {
    assert_eq!(
        jam_message("Jukebox", "spotify://socialsession/x"),
        "\u{1f3b5} **Jukebox** \u{2014} [Join the Jam](spotify://socialsession/x)"
    );
}

#[test]
fn the_watch_sleeps_while_somebody_listens() {
    let sleep = vec![WatchAction::Sleep { seconds: 5 }];
    assert_eq!(watch(PLACE, WatchEvent::Started), sleep);
    let states = Some(vec![VoiceState { user: 9, channel: Some(50) }, VoiceState { user: 42, channel: Some(50) }]);
    assert_eq!(watch(PLACE, WatchEvent::Woke { states, bot: 9 }), sleep);
}

#[test]
fn the_watch_cleans_up_when_the_channel_is_empty() {
    let clean_up = vec![WatchAction::ShutDownDevice, WatchAction::LeaveVoice { guild: 5 }, WatchAction::Stop];
    let alone = Some(vec![VoiceState { user: 9, channel: Some(50) }, VoiceState { user: 42, channel: Some(51) }]);
    for states in [None, Some(vec![]), alone] {
        assert_eq!(watch(PLACE, WatchEvent::Woke { states, bot: 9 }), clean_up);
    }
}
