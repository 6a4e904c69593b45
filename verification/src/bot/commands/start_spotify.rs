//! The command that connects a user's Spotify and plays it in the user's voice channel.
//!
//! A run of the command is a row of stages. At each stage something outside is awaited;
//! when it has happened, `advance` says what comes next and what is to be done.

use vstd::prelude::*;
use vstd::string::*;

use crate::bot::voice::{
    channel_of, find_channel, has_company, known_states, law_first_state_decides, law_found_channel_is_named,
    still_connected, VoiceState,
};
use crate::config::{Config, ConfigView};
use crate::spotify::auth::{auth_url, build_auth_url, profile_outcome, reply_name, ProfileError, ProfileReply, TokenResponse};
use crate::server::delivery_for;
use crate::store::{SpotifyTokens, Store, StoreView};
use crate::text::{decimal, decimal_text, law_stripping_undoes_prepending, stripped};

verus! {

/// How long the authorization of a user is waited for, in seconds.
pub const WAIT_SECONDS: u64 = 300;

/// How often it is checked whether somebody is still listening, in seconds.
pub const WATCH_SECONDS: u64 = 5;

/// The samples per second of the sound that is played.
pub const SAMPLE_RATE: u32 = 44_100;

/// The channels of the sound that is played.
pub const SOUND_CHANNELS: u32 = 2;

/// The voice channel that a run is for.
#[derive(Debug, Clone, Copy, PartialEq, Eq, Structural)]
pub struct Place {
    pub guild: u64,
    pub channel: u64,
}

/// How far a run of the command has come.
pub enum Stage {
    /// The command was given.
    Given,
    /// The authorization link is on its way to the user.
    Linking { place: Place, user_id: String },
    /// The tokens of the user are awaited.
    AwaitingTokens { place: Place, user_id: String },
    /// The profile of the user is awaited.
    AwaitingProfile { place: Place, access_token: String },
    /// The user, who is recognised now, is being told so.
    Greeting { place: Place, access_token: String, spotify_name: String },
    /// The Spotify Connect device is awaited.
    AwaitingDevice { place: Place, spotify_name: String, device_name: String },
    /// The voice system is asked for.
    AwaitingVoiceSystem { place: Place, spotify_name: String, device_name: String },
    /// The voice channel is being joined.
    AwaitingJoin { place: Place, spotify_name: String, device_name: String },
    /// The music plays.
    Playing { place: Place, device_name: String },
    /// The run has failed.
    Failed,
}

/// What a `Stage` holds.
pub enum StageView {
    Given,
    Linking { place: Place, user_id: Seq<char> },
    AwaitingTokens { place: Place, user_id: Seq<char> },
    AwaitingProfile { place: Place, access_token: Seq<char> },
    Greeting { place: Place, access_token: Seq<char>, spotify_name: Seq<char> },
    AwaitingDevice { place: Place, spotify_name: Seq<char>, device_name: Seq<char> },
    AwaitingVoiceSystem { place: Place, spotify_name: Seq<char>, device_name: Seq<char> },
    AwaitingJoin { place: Place, spotify_name: Seq<char>, device_name: Seq<char> },
    Playing { place: Place, device_name: Seq<char> },
    Failed,
}

impl View for Stage {
    type V = StageView;

    open spec fn view(&self) -> StageView {
        match *self {
            Stage::Given => StageView::Given,
            Stage::Linking { place, user_id } => StageView::Linking { place, user_id: user_id@ },
            Stage::AwaitingTokens { place, user_id } => StageView::AwaitingTokens { place, user_id: user_id@ },
            Stage::AwaitingProfile { place, access_token } => StageView::AwaitingProfile {
                place,
                access_token: access_token@,
            },
            Stage::Greeting { place, access_token, spotify_name } => StageView::Greeting {
                place,
                access_token: access_token@,
                spotify_name: spotify_name@,
            },
            Stage::AwaitingDevice { place, spotify_name, device_name } => StageView::AwaitingDevice {
                place,
                spotify_name: spotify_name@,
                device_name: device_name@,
            },
            Stage::AwaitingVoiceSystem { place, spotify_name, device_name } => StageView::AwaitingVoiceSystem {
                place,
                spotify_name: spotify_name@,
                device_name: device_name@,
            },
            Stage::AwaitingJoin { place, spotify_name, device_name } => StageView::AwaitingJoin {
                place,
                spotify_name: spotify_name@,
                device_name: device_name@,
            },
            Stage::Playing { place, device_name } => StageView::Playing { place, device_name: device_name@ },
            Stage::Failed => StageView::Failed,
        }
    }
}

/// Something that has happened outside.
pub enum Event {
    /// A user gave the command, in a guild or in none; the voice states of the guild are
    /// there where they are known.
    Command { guild: Option<u64>, states: Option<Vec<VoiceState>>, user: u64 },
    /// The authorization link was sent, and a waiter with this ticket stands ready.
    LinkSent { ticket: u64 },
    /// The tokens of the user arrived.
    TokensArrived(SpotifyTokens),
    /// The waiter was dropped.
    WaitCancelled,
    /// The time to wait is over.
    WaitTimedOut,
    /// The request for the profile has ended.
    ProfileReply(ProfileReply),
    /// The user was told.
    Greeted,
    /// The Spotify Connect device is there.
    DeviceReady,
    /// There is no device, for this reason.
    DeviceFailed(String),
    /// The voice system was asked for, and is there or is not.
    VoiceSystem { ready: bool },
    /// The bot is in the voice channel.
    Joined,
    /// The bot could not get into the voice channel, for this reason.
    JoinFailed(String),
}

/// What an `Event` holds.
pub enum EventView {
    Command { guild: Option<u64>, states: Option<Seq<VoiceState>>, user: u64 },
    LinkSent { ticket: u64 },
    TokensArrived { access_token: Seq<char> },
    WaitCancelled,
    WaitTimedOut,
    ProfileReply(Result<Seq<char>, ProfileError>),
    Greeted,
    DeviceReady,
    DeviceFailed(Seq<char>),
    VoiceSystem { ready: bool },
    Joined,
    JoinFailed(Seq<char>),
}

impl View for Event {
    type V = EventView;

    open spec fn view(&self) -> EventView {
        match *self {
            Event::Command { guild, states, user } => EventView::Command { guild, states: known_states(states), user },
            Event::LinkSent { ticket } => EventView::LinkSent { ticket },
            Event::TokensArrived(tokens) => EventView::TokensArrived { access_token: tokens.access_token@ },
            Event::WaitCancelled => EventView::WaitCancelled,
            Event::WaitTimedOut => EventView::WaitTimedOut,
            Event::ProfileReply(reply) => EventView::ProfileReply(reply_name(reply)),
            Event::Greeted => EventView::Greeted,
            Event::DeviceReady => EventView::DeviceReady,
            Event::DeviceFailed(reason) => EventView::DeviceFailed(reason@),
            Event::VoiceSystem { ready } => EventView::VoiceSystem { ready },
            Event::Joined => EventView::Joined,
            Event::JoinFailed(reason) => EventView::JoinFailed(reason@),
        }
    }
}

/// Something that is to be done outside.
pub enum Action {
    /// Answer the command, for the user's eyes only.
    Reply(String),
    /// Answer the command with the authorization link, for the user's eyes only; then
    /// have a waiter ready, and report its ticket.
    SendLink(String),
    /// Follow the answer up, for the user's eyes only.
    FollowUp(String),
    /// Follow the answer up in the same way, and report when that is done.
    Greet(String),
    /// Tell everybody in the channel where the command was given.
    Announce(String),
    /// Drop the waiter that holds this ticket.
    DropWaiter { ticket: u64 },
    /// Wait for the tokens of the user.
    AwaitTokens { seconds: u64 },
    /// Ask for the profile behind the token.
    FetchProfile { access_token: String },
    /// Register a Spotify Connect device of this name.
    CreateDevice { device_name: String, access_token: String },
    /// Ask for the voice system.
    FindVoiceSystem,
    /// Join the voice channel.
    JoinVoice { place: Place },
    /// Shut the device down.
    ShutDownDevice,
    /// Hand the sound of the device to the voice channel.
    Play { sample_rate: u32, channels: u32 },
    /// Pass Jam links on, show what plays, and watch the voice channel.
    StartTasks { place: Place, device_name: String },
}

/// What an `Action` holds.
pub enum ActionView {
    Reply(Seq<char>),
    SendLink(Seq<char>),
    FollowUp(Seq<char>),
    Greet(Seq<char>),
    Announce(Seq<char>),
    DropWaiter { ticket: u64 },
    AwaitTokens { seconds: u64 },
    FetchProfile { access_token: Seq<char> },
    CreateDevice { device_name: Seq<char>, access_token: Seq<char> },
    FindVoiceSystem,
    JoinVoice { place: Place },
    ShutDownDevice,
    Play { sample_rate: u32, channels: u32 },
    StartTasks { place: Place, device_name: Seq<char> },
}

impl View for Action {
    type V = ActionView;

    open spec fn view(&self) -> ActionView {
        match *self {
            Action::Reply(text) => ActionView::Reply(text@),
            Action::SendLink(text) => ActionView::SendLink(text@),
            Action::FollowUp(text) => ActionView::FollowUp(text@),
            Action::Greet(text) => ActionView::Greet(text@),
            Action::Announce(text) => ActionView::Announce(text@),
            Action::DropWaiter { ticket } => ActionView::DropWaiter { ticket },
            Action::AwaitTokens { seconds } => ActionView::AwaitTokens { seconds },
            Action::FetchProfile { access_token } => ActionView::FetchProfile { access_token: access_token@ },
            Action::CreateDevice { device_name, access_token } => ActionView::CreateDevice {
                device_name: device_name@,
                access_token: access_token@,
            },
            Action::FindVoiceSystem => ActionView::FindVoiceSystem,
            Action::JoinVoice { place } => ActionView::JoinVoice { place },
            Action::ShutDownDevice => ActionView::ShutDownDevice,
            Action::Play { sample_rate, channels } => ActionView::Play { sample_rate, channels },
            Action::StartTasks { place, device_name } => ActionView::StartTasks { place, device_name: device_name@ },
        }
    }
}

/// What comes next: the stage, and what is to be done, in this order.
pub struct Step {
    pub stage: Stage,
    pub actions: Vec<Action>,
}

/// What a `Step` holds.
#[verifier::ext_equal]
pub struct StepView {
    pub stage: StageView,
    pub actions: Seq<ActionView>,
}

impl View for Step {
    type V = StepView;

    open spec fn view(&self) -> StepView {
        StepView { stage: self.stage@, actions: self.actions@.map_values(|action: Action| action@) }
    }
}

/// The name that a user is shown with.
pub open spec fn name_or_unknown(name: Result<Seq<char>, ProfileError>) -> Seq<char> {
    match name {
        Ok(name) => name,
        Err(_) => "Unknown"@,
    }
}

/// The message with the authorization link.
pub open spec fn link_text(url: Seq<char>) -> Seq<char> {
    "**Connect your Spotify account:**\n[Click here to authorize]("@ + url
        + ")\n\n_This link expires in 5 minutes._"@
}

/// The message that the user was recognised.
pub open spec fn connected_text(spotify_name: Seq<char>) -> Seq<char> {
    "✅ Connected as **"@ + spotify_name
        + "**. Joining your voice channel and registering as a Spotify Connect device…"@
}

/// The message to the user that the music can begin.
pub open spec fn ready_text(spotify_name: Seq<char>, device_name: Seq<char>) -> Seq<char> {
    "✅ **"@ + spotify_name + "** — open Spotify, pick **"@ + device_name
        + "** as your device, then hit **Start a Jam** to share the link here!"@
}

/// The message to everybody that the music can begin.
pub open spec fn started_text(spotify_name: Seq<char>, device_name: Seq<char>) -> Seq<char> {
    "🎵 **"@ + spotify_name + "** started a listening session on **"@ + device_name
        + "**! Open Spotify → **Start a Jam** → I'll post the link here automatically."@
}

/// The message with the link into a Jam.
pub open spec fn jam_text(device_name: Seq<char>, url: Seq<char>) -> Seq<char> {
    "🎵 **"@ + device_name + "** — [Join the Jam]("@ + url + ")"@
}

/// A run that fails with a word to the user.
pub open spec fn failure(word: ActionView) -> StepView {
    StepView { stage: StageView::Failed, actions: seq![word] }
}

/// The command was given. It has to be given in a guild, by a user who is in one of its
/// voice channels; such a user gets the authorization link.
pub open spec fn after_command(
    cfg: ConfigView,
    guild: Option<u64>,
    states: Option<Seq<VoiceState>>,
    user: u64,
) -> StepView {
    match guild {
        None => failure(ActionView::Reply("This command must be used inside a server."@)),
        Some(guild) => match user_channel(states, user) {
            None => failure(ActionView::Reply("You need to be in a voice channel first."@)),
            Some(channel) => StepView {
                stage: StageView::Linking { place: Place { guild, channel }, user_id: decimal(user as nat) },
                actions: seq![ActionView::SendLink(link_text(auth_url(cfg, decimal(user as nat))))],
            },
        },
    }
}

/// The voice channel that a user is in, where the voice states are known.
pub open spec fn user_channel(states: Option<Seq<VoiceState>>, user: u64) -> Option<u64> {
    match states {
        Some(states) => channel_of(states, user),
        None => None,
    }
}

/// The waiter that loses its place in the store is dropped.
pub open spec fn drop_waiter(ticket: Option<u64>) -> Seq<ActionView> {
    match ticket {
        Some(ticket) => seq![ActionView::DropWaiter { ticket }],
        None => Seq::empty(),
    }
}

/// The link was sent: the waiter takes its place in the store.
pub open spec fn after_link(store: StoreView, place: Place, user_id: Seq<char>) -> StepView {
    StepView {
        stage: StageView::AwaitingTokens { place, user_id },
        actions: drop_waiter(store.ticket(user_id)).push(ActionView::AwaitTokens { seconds: WAIT_SECONDS }),
    }
}

/// The wait has ended without tokens: nobody waits for the user any more.
pub open spec fn after_failed_wait(store: StoreView, user_id: Seq<char>, word: Seq<char>) -> StepView {
    StepView {
        stage: StageView::Failed,
        actions: drop_waiter(store.ticket(user_id)).push(ActionView::FollowUp(word)),
    }
}

/// The profile is known, or is not: the user is told by which name they are known.
pub open spec fn after_profile(
    place: Place,
    access_token: Seq<char>,
    name: Result<Seq<char>, ProfileError>,
) -> StepView {
    StepView {
        stage: StageView::Greeting { place, access_token, spotify_name: name_or_unknown(name) },
        actions: seq![ActionView::Greet(connected_text(name_or_unknown(name)))],
    }
}

/// The user was told: the device is registered under the name that the bot has now.
pub open spec fn after_greeting(
    store: StoreView,
    place: Place,
    access_token: Seq<char>,
    spotify_name: Seq<char>,
) -> StepView {
    StepView {
        stage: StageView::AwaitingDevice { place, spotify_name, device_name: store.bot_name },
        actions: seq![ActionView::CreateDevice { device_name: store.bot_name, access_token }],
    }
}

/// The bot is in the voice channel: the music plays.
pub open spec fn after_join(place: Place, spotify_name: Seq<char>, device_name: Seq<char>) -> StepView {
    StepView {
        stage: StageView::Playing { place, device_name },
        actions: seq![
            ActionView::Play { sample_rate: SAMPLE_RATE, channels: SOUND_CHANNELS },
            ActionView::FollowUp(ready_text(spotify_name, device_name)),
            ActionView::Announce(started_text(spotify_name, device_name)),
            ActionView::StartTasks { place, device_name },
        ],
    }
}

/// What comes next. An event that the stage does not await changes nothing.
pub open spec fn next_step(cfg: ConfigView, store: StoreView, stage: StageView, event: EventView) -> StepView {
    match (stage, event) {
        (StageView::Given, EventView::Command { guild, states, user }) => after_command(cfg, guild, states, user),
        (StageView::Linking { place, user_id }, EventView::LinkSent { .. }) => after_link(store, place, user_id),
        (StageView::AwaitingTokens { place, .. }, EventView::TokensArrived { access_token }) => StepView {
            stage: StageView::AwaitingProfile { place, access_token },
            actions: seq![ActionView::FetchProfile { access_token }],
        },
        (StageView::AwaitingTokens { user_id, .. }, EventView::WaitCancelled) => after_failed_wait(
            store,
            user_id,
            "❌ Authorization was cancelled."@,
        ),
        (StageView::AwaitingTokens { user_id, .. }, EventView::WaitTimedOut) => after_failed_wait(
            store,
            user_id,
            "❌ Authorization timed out. Please run the command again."@,
        ),
        (StageView::AwaitingProfile { place, access_token }, EventView::ProfileReply(name)) => after_profile(
            place,
            access_token,
            name,
        ),
        (StageView::Greeting { place, access_token, spotify_name }, EventView::Greeted) => after_greeting(
            store,
            place,
            access_token,
            spotify_name,
        ),
        (StageView::AwaitingDevice { place, spotify_name, device_name }, EventView::DeviceReady) => StepView {
            stage: StageView::AwaitingVoiceSystem { place, spotify_name, device_name },
            actions: seq![ActionView::FindVoiceSystem],
        },
        (StageView::AwaitingDevice { .. }, EventView::DeviceFailed(reason)) => failure(
            ActionView::FollowUp("❌ Spotify Connect error: "@ + reason),
        ),
        (StageView::AwaitingVoiceSystem { place, spotify_name, device_name }, EventView::VoiceSystem { ready }) =>
            if ready {
                StepView {
                    stage: StageView::AwaitingJoin { place, spotify_name, device_name },
                    actions: seq![ActionView::JoinVoice { place }],
                }
            } else {
                failure(ActionView::FollowUp("❌ Internal error: voice system not ready."@))
            },
        (StageView::AwaitingJoin { place, spotify_name, device_name }, EventView::Joined) => after_join(
            place,
            spotify_name,
            device_name,
        ),
        (StageView::AwaitingJoin { .. }, EventView::JoinFailed(reason)) => StepView {
            stage: StageView::Failed,
            actions: seq![
                ActionView::FollowUp("❌ Could not join voice channel: "@ + reason),
                ActionView::ShutDownDevice,
            ],
        },
        _ => StepView { stage, actions: Seq::empty() },
    }
}

/// The store after an event: a waiter takes its place when the link was sent, and the
/// place is cleared when the wait ends without tokens.
pub open spec fn next_store(store: StoreView, stage: StageView, event: EventView) -> StoreView {
    match (stage, event) {
        (StageView::Linking { user_id, .. }, EventView::LinkSent { ticket }) => store.waiting(user_id, ticket),
        (StageView::AwaitingTokens { user_id, .. }, EventView::WaitCancelled) => store.settled(user_id),
        (StageView::AwaitingTokens { user_id, .. }, EventView::WaitTimedOut) => store.settled(user_id),
        _ => store,
    }
}

/// One thing to do.
fn only(action: Action) -> (actions: Vec<Action>)
    ensures
        actions@.map_values(|action: Action| action@) == seq![action@],
{
    let actions = vec![action];
    assert(actions@.map_values(|action: Action| action@) =~= seq![action@]);
    actions
}

/// The waiter that loses its place is dropped first; then comes `action`.
fn drop_and(ticket: Option<u64>, action: Action) -> (actions: Vec<Action>)
    ensures
        actions@.map_values(|action: Action| action@) == drop_waiter(ticket).push(action@),
{
    let mut actions: Vec<Action> = Vec::new();
    if let Some(ticket) = ticket {
        actions.push(Action::DropWaiter { ticket });
    }
    actions.push(action);
    assert(actions@.map_values(|action: Action| action@) =~= drop_waiter(ticket).push(action@));
    actions
}

/// A run that fails with a word to the user.
fn fail(word: Action) -> (step: Step)
    ensures
        step@ == failure(word@),
{
    Step { stage: Stage::Failed, actions: only(word) }
}

/// `head`, `name` and `tail` in a row.
fn around(head: &str, name: &str, tail: &str) -> (text: String)
    ensures
        text@ == head@ + name@ + tail@,
{
    let mut text = head.to_owned();
    text.append(name);
    text.append(tail);
    text
}

/// The message with the link into a Jam.
pub fn jam_message(device_name: &str, url: &str) -> (text: String)
    ensures
        text@ == jam_text(device_name@, url@),
{
    let mut text = around("🎵 **", device_name, "** — [Join the Jam](");
    text.append(url);
    text.append(")");
    text
}

/// The command was given.
fn on_command(cfg: &Config, guild: Option<u64>, states: Option<Vec<VoiceState>>, user: u64) -> (step: Step)
    ensures
        step@ == after_command(cfg@, guild, known_states(states), user),
{
    let guild: u64 = match guild {
        Some(guild) => guild,
        None => {
            return fail(Action::Reply("This command must be used inside a server.".to_owned()));
        },
    };
    let channel: Option<u64> = match states {
        Some(states) => find_channel(&states, user),
        None => None,
    };
    let channel: u64 = match channel {
        Some(channel) => channel,
        None => {
            return fail(Action::Reply("You need to be in a voice channel first.".to_owned()));
        },
    };
    let user_id = decimal_text(user);
    let url = build_auth_url(cfg, user_id.as_str());
    let text = around(
        "**Connect your Spotify account:**\n[Click here to authorize](",
        url.as_str(),
        ")\n\n_This link expires in 5 minutes._",
    );
    Step { stage: Stage::Linking { place: Place { guild, channel }, user_id }, actions: only(Action::SendLink(text)) }
}

/// The link was sent.
fn on_link_sent(store: &mut Store, place: Place, user_id: String, ticket: u64) -> (step: Step)
    ensures
        step@ == after_link(old(store)@, place, user_id@),
        final(store)@ == old(store)@.waiting(user_id@, ticket),
{
    let displaced = store.wait(user_id.clone(), ticket);
    Step {
        stage: Stage::AwaitingTokens { place, user_id },
        actions: drop_and(displaced, Action::AwaitTokens { seconds: WAIT_SECONDS }),
    }
}

/// The wait has ended without tokens.
fn on_failed_wait(store: &mut Store, user_id: &str, word: &str) -> (step: Step)
    ensures
        step@ == after_failed_wait(old(store)@, user_id@, word@),
        final(store)@ == old(store)@.settled(user_id@),
{
    let dropped = store.settle(user_id);
    Step { stage: Stage::Failed, actions: drop_and(dropped, Action::FollowUp(word.to_owned())) }
}

/// The profile is known, or is not.
fn on_profile(place: Place, access_token: String, reply: ProfileReply) -> (step: Step)
    ensures
        step@ == after_profile(place, access_token@, reply_name(reply)),
{
    let spotify_name = match profile_outcome(reply) {
        Ok(name) => name,
        Err(_) => "Unknown".to_owned(),
    };
    let text = around(
        "✅ Connected as **",
        spotify_name.as_str(),
        "**. Joining your voice channel and registering as a Spotify Connect device…",
    );
    Step { stage: Stage::Greeting { place, access_token, spotify_name }, actions: only(Action::Greet(text)) }
}

/// The user was told.
fn on_greeted(store: &Store, place: Place, access_token: String, spotify_name: String) -> (step: Step)
    ensures
        step@ == after_greeting(store@, place, access_token@, spotify_name@),
{
    let device_name = store.bot_name().to_owned();
    Step {
        stage: Stage::AwaitingDevice { place, spotify_name, device_name: device_name.clone() },
        actions: only(Action::CreateDevice { device_name, access_token }),
    }
}

/// The bot is in the voice channel.
fn on_joined(place: Place, spotify_name: String, device_name: String) -> (step: Step)
    ensures
        step@ == after_join(place, spotify_name@, device_name@),
{
    let mut ready = around("✅ **", spotify_name.as_str(), "** — open Spotify, pick **");
    ready.append(device_name.as_str());
    ready.append("** as your device, then hit **Start a Jam** to share the link here!");
    let mut started = around("🎵 **", spotify_name.as_str(), "** started a listening session on **");
    started.append(device_name.as_str());
    started.append("**! Open Spotify → **Start a Jam** → I'll post the link here automatically.");
    let actions = vec![
        Action::Play { sample_rate: SAMPLE_RATE, channels: SOUND_CHANNELS },
        Action::FollowUp(ready),
        Action::Announce(started),
        Action::StartTasks { place, device_name: device_name.clone() },
    ];
    let step = Step { stage: Stage::Playing { place, device_name }, actions };
    assert(step@ =~= after_join(place, spotify_name@, device_name@));
    step
}

/// The bot could not get into the voice channel.
fn on_join_failed(reason: &str) -> (step: Step)
    ensures
        step@ == (StepView {
            stage: StageView::Failed,
            actions: seq![
                ActionView::FollowUp("❌ Could not join voice channel: "@ + reason@),
                ActionView::ShutDownDevice,
            ],
        }),
{
    let actions = vec![
        Action::FollowUp("❌ Could not join voice channel: ".to_owned().concat(reason)),
        Action::ShutDownDevice,
    ];
    let step = Step { stage: Stage::Failed, actions };
    assert(step@.actions =~= seq![
        ActionView::FollowUp("❌ Could not join voice channel: "@ + reason@),
        ActionView::ShutDownDevice,
    ]);
    step
}

/// Takes a run of the command one step further: what comes next, now that `event` has
/// happened. An event that the stage does not await changes nothing.
pub fn advance(cfg: &Config, store: &mut Store, stage: Stage, event: Event) -> (step: Step)
    ensures
        step@ == next_step(cfg@, old(store)@, stage@, event@),
        final(store)@ == next_store(old(store)@, stage@, event@),
{
    match (stage, event) {
        (Stage::Given, Event::Command { guild, states, user }) => on_command(cfg, guild, states, user),
        (Stage::Linking { place, user_id }, Event::LinkSent { ticket }) => on_link_sent(
            store,
            place,
            user_id,
            ticket,
        ),
        (Stage::AwaitingTokens { place, user_id: _ }, Event::TokensArrived(tokens)) => Step {
            stage: Stage::AwaitingProfile { place, access_token: tokens.access_token.clone() },
            actions: only(Action::FetchProfile { access_token: tokens.access_token }),
        },
        (Stage::AwaitingTokens { place: _, user_id }, Event::WaitCancelled) => on_failed_wait(
            store,
            user_id.as_str(),
            "❌ Authorization was cancelled.",
        ),
        (Stage::AwaitingTokens { place: _, user_id }, Event::WaitTimedOut) => on_failed_wait(
            store,
            user_id.as_str(),
            "❌ Authorization timed out. Please run the command again.",
        ),
        (Stage::AwaitingProfile { place, access_token }, Event::ProfileReply(reply)) => on_profile(
            place,
            access_token,
            reply,
        ),
        (Stage::Greeting { place, access_token, spotify_name }, Event::Greeted) => on_greeted(
            store,
            place,
            access_token,
            spotify_name,
        ),
        (Stage::AwaitingDevice { place, spotify_name, device_name }, Event::DeviceReady) => Step {
            stage: Stage::AwaitingVoiceSystem { place, spotify_name, device_name },
            actions: only(Action::FindVoiceSystem),
        },
        (Stage::AwaitingDevice { .. }, Event::DeviceFailed(reason)) => fail(
            Action::FollowUp("❌ Spotify Connect error: ".to_owned().concat(reason.as_str())),
        ),
        (Stage::AwaitingVoiceSystem { place, spotify_name, device_name }, Event::VoiceSystem { ready }) => {
            if ready {
                Step {
                    stage: Stage::AwaitingJoin { place, spotify_name, device_name },
                    actions: only(Action::JoinVoice { place }),
                }
            } else {
                fail(Action::FollowUp("❌ Internal error: voice system not ready.".to_owned()))
            }
        },
        (Stage::AwaitingJoin { place, spotify_name, device_name }, Event::Joined) => on_joined(
            place,
            spotify_name,
            device_name,
        ),
        (Stage::AwaitingJoin { .. }, Event::JoinFailed(reason)) => on_join_failed(reason.as_str()),
        (stage, _) => {
            let step = Step { stage, actions: Vec::new() };
            assert(step@.actions =~= Seq::empty());
            step
        },
    }
}

/// Whether a stage is a last one.
pub open spec fn is_over(stage: StageView) -> bool {
    stage is Playing || stage is Failed
}

/// Whether an action is a word to the user who gave the command.
pub open spec fn is_word(action: ActionView) -> bool {
    action is Reply || action is SendLink || action is FollowUp || action is Greet
}

/// A run that is over stays as it is, whatever happens.
pub proof fn law_over_is_over(cfg: ConfigView, store: StoreView, stage: StageView, event: EventView)
    requires
        is_over(stage),
    ensures
        next_step(cfg, store, stage, event) == (StepView { stage, actions: Seq::empty() }),
        next_store(store, stage, event) == store,
{
}

/// A run never fails in silence, nor says twice why: with the step to failure goes
/// exactly one word to the user.
pub proof fn law_failure_is_explained_once(cfg: ConfigView, store: StoreView, stage: StageView, event: EventView)
    requires
        !(stage is Failed),
        next_step(cfg, store, stage, event).stage is Failed,
    ensures
        exists|i: int|
            0 <= i < next_step(cfg, store, stage, event).actions.len() && is_word(
                #[trigger] next_step(cfg, store, stage, event).actions[i],
            ) && (forall|j: int|
                0 <= j < next_step(cfg, store, stage, event).actions.len() && j != i ==> !is_word(
                    #[trigger] next_step(cfg, store, stage, event).actions[j],
                )),
{
    let actions = next_step(cfg, store, stage, event).actions;
    if stage is AwaitingTokens {
        assert(is_word(actions[actions.len() - 1]));
    } else {
        assert(is_word(actions[0]));
    }
}

/// A wait that ends without tokens leaves nobody waiting for the user, whether it was
/// cancelled or timed out.
pub proof fn law_failed_wait_is_cleared(store: StoreView, place: Place, user_id: Seq<char>)
    ensures
        next_store(
            store,
            (StageView::AwaitingTokens { place, user_id }),
            EventView::WaitCancelled,
        ).ticket(user_id) is None,
        next_store(
            store,
            (StageView::AwaitingTokens { place, user_id }),
            EventView::WaitTimedOut,
        ).ticket(user_id) is None,
{
}

/// A run touches in the store only what waits for its own user.
pub proof fn law_runs_of_different_users_do_not_interfere(
    store: StoreView,
    stage: StageView,
    event: EventView,
    other: Seq<char>,
)
    requires
        stage matches StageView::Linking { user_id, .. } ==> user_id != other,
        stage matches StageView::AwaitingTokens { user_id, .. } ==> user_id != other,
    ensures
        next_store(store, stage, event).ticket(other) == store.ticket(other),
        next_store(store, stage, event).bot_name == store.bot_name,
{
}

/// A waiter that loses its place in the store by a step is dropped in that step, so that
/// nobody waits in vain.
pub proof fn law_displaced_waiters_are_dropped(
    cfg: ConfigView,
    store: StoreView,
    stage: StageView,
    event: EventView,
    user_id: Seq<char>,
    ticket: u64,
)
    requires
        store.ticket(user_id) == Some(ticket),
        next_store(store, stage, event).ticket(user_id) != Some(ticket),
    ensures
        next_step(cfg, store, stage, event).actions.contains(ActionView::DropWaiter { ticket }),
{
    assert(next_step(cfg, store, stage, event).actions[0] == (ActionView::DropWaiter { ticket }));
}

/// The link that a user gets leads back to this run: it is the authorization link whose
/// state is the user's id, and once the run waits, the callback that Spotify sends with
/// that state hands the tokens to the waiter of this run.
pub proof fn law_link_leads_back_to_the_run(
    cfg: ConfigView,
    store: StoreView,
    guild: u64,
    states: Seq<VoiceState>,
    user: u64,
    ticket: u64,
    response: TokenResponse,
)
    requires
        channel_of(states, user) is Some,
    ensures
        ({
            let user_id = decimal(user as nat);
            let first = next_step(
                cfg,
                store,
                StageView::Given,
                (EventView::Command { guild: Some(guild), states: Some(states), user }),
            );
            let waiting = next_store(store, first.stage, EventView::LinkSent { ticket });
            let delivery = delivery_for(waiting, user_id, Ok(response));
            &&& first.actions == seq![ActionView::SendLink(link_text(auth_url(cfg, user_id)))]
            &&& delivery is Some
            &&& delivery->0.ticket == ticket
            &&& delivery->0.tokens.access_token == response.access_token
            &&& delivery->0.tokens.refresh_token == response.refresh_token
        }),
{
}

/// From the command to the music: if everything that is awaited happens, the bot joins
/// the channel that the user was in when the command was given, with a device that bears
/// the name of the bot and was registered with the user's own token. What the store held
/// at each step is left open, since others use it meanwhile.
pub proof fn law_a_run_without_mishap_plays(
    cfg: ConfigView,
    stores: Seq<StoreView>,
    guild: u64,
    states: Seq<VoiceState>,
    user: u64,
    ticket: u64,
    access_token: Seq<char>,
    name: Result<Seq<char>, ProfileError>,
)
    requires
        stores.len() == 8,
        channel_of(states, user) is Some,
    ensures
        ({
            let place = Place { guild, channel: channel_of(states, user)->0 };
            let s0 = next_step(
                cfg,
                stores[0],
                StageView::Given,
                (EventView::Command { guild: Some(guild), states: Some(states), user }),
            );
            let s1 = next_step(cfg, stores[1], s0.stage, EventView::LinkSent { ticket });
            let s2 = next_step(cfg, stores[2], s1.stage, EventView::TokensArrived { access_token });
            let s3 = next_step(cfg, stores[3], s2.stage, EventView::ProfileReply(name));
            let s4 = next_step(cfg, stores[4], s3.stage, EventView::Greeted);
            let s5 = next_step(cfg, stores[5], s4.stage, EventView::DeviceReady);
            let s6 = next_step(cfg, stores[6], s5.stage, EventView::VoiceSystem { ready: true });
            let s7 = next_step(cfg, stores[7], s6.stage, EventView::Joined);
            let device_name = stores[4].bot_name;
            &&& s2.actions.contains(ActionView::FetchProfile { access_token })
            &&& s3.actions.contains(ActionView::Greet(connected_text(name_or_unknown(name))))
            &&& s4.actions.contains(ActionView::CreateDevice { device_name, access_token })
            &&& s6.actions.contains(ActionView::JoinVoice { place })
            &&& s7.stage == (StageView::Playing { place, device_name })
            &&& s7.actions.contains(ActionView::StartTasks { place, device_name })
        }),
{
    let s0 = next_step(
        cfg,
        stores[0],
        StageView::Given,
        (EventView::Command { guild: Some(guild), states: Some(states), user }),
    );
    let s1 = next_step(cfg, stores[1], s0.stage, EventView::LinkSent { ticket });
    let s2 = next_step(cfg, stores[2], s1.stage, EventView::TokensArrived { access_token });
    let s3 = next_step(cfg, stores[3], s2.stage, EventView::ProfileReply(name));
    let s4 = next_step(cfg, stores[4], s3.stage, EventView::Greeted);
    let s5 = next_step(cfg, stores[5], s4.stage, EventView::DeviceReady);
    let s6 = next_step(cfg, stores[6], s5.stage, EventView::VoiceSystem { ready: true });
    let s7 = next_step(cfg, stores[7], s6.stage, EventView::Joined);
    let place = Place { guild, channel: channel_of(states, user)->0 };
    let device_name = stores[4].bot_name;
    assert(s2.actions[0] == (ActionView::FetchProfile { access_token }));
    assert(s3.actions[0] == ActionView::Greet(connected_text(name_or_unknown(name))));
    assert(s4.actions[0] == (ActionView::CreateDevice { device_name, access_token }));
    assert(s6.actions[0] == (ActionView::JoinVoice { place }));
    assert(s7.actions[3] == (ActionView::StartTasks { place, device_name }));
}

/// What makes the watch over a voice channel act.
pub enum WatchEvent {
    /// The watch begins.
    Started,
    /// It slept; these are the voice states of the guild, where they are known, and the
    /// bot is this user.
    Woke { states: Option<Vec<VoiceState>>, bot: u64 },
}

/// What the watch over a voice channel does.
#[derive(Debug, Clone, Copy, PartialEq, Eq, Structural)]
pub enum WatchAction {
    /// Sleep, and look again.
    Sleep { seconds: u64 },
    /// Shut the Spotify Connect device down.
    ShutDownDevice,
    /// Leave the voice channel of the guild.
    LeaveVoice { guild: u64 },
    /// The watch is over.
    Stop,
}

/// What the watch does, in this order: as long as somebody listens it sleeps, and then it
/// cleans up.
pub open spec fn watch_actions(place: Place, event: WatchEvent) -> Seq<WatchAction> {
    match event {
        WatchEvent::Started => seq![WatchAction::Sleep { seconds: WATCH_SECONDS }],
        WatchEvent::Woke { states, bot } => if has_company(known_states(states), place.channel, bot) {
            seq![WatchAction::Sleep { seconds: WATCH_SECONDS }]
        } else {
            seq![
                WatchAction::ShutDownDevice,
                WatchAction::LeaveVoice { guild: place.guild },
                WatchAction::Stop,
            ]
        },
    }
}

/// What the watch over a voice channel does, in this order.
pub fn watch(place: Place, event: WatchEvent) -> (actions: Vec<WatchAction>)
    ensures
        actions@ == watch_actions(place, event),
{
    let listening: bool = match &event {
        WatchEvent::Started => true,
        WatchEvent::Woke { states, bot } => still_connected(states, place.channel, *bot),
    };
    let actions = if listening {
        vec![WatchAction::Sleep { seconds: WATCH_SECONDS }]
    } else {
        vec![
            WatchAction::ShutDownDevice,
            WatchAction::LeaveVoice { guild: place.guild },
            WatchAction::Stop,
        ]
    };
    assert(actions@ =~= watch_actions(place, event));
    actions
}

/// A watch that ends has shut the device down and left the channel, and it does not end
/// while somebody listens.
pub proof fn law_watch_cleans_up(place: Place, event: WatchEvent)
    requires
        watch_actions(place, event).contains(WatchAction::Stop),
    ensures
        watch_actions(place, event).contains(WatchAction::ShutDownDevice),
        watch_actions(place, event).contains(WatchAction::LeaveVoice { guild: place.guild }),
        event matches WatchEvent::Woke { states, bot } && !has_company(known_states(states), place.channel, bot),
{
    let actions = watch_actions(place, event);
    if event is Started {
        assert(actions[0] != WatchAction::Stop);
    }
    assert(actions[0] == WatchAction::ShutDownDevice);
    assert(actions[1] == (WatchAction::LeaveVoice { guild: place.guild }));
}

/// A user who gives the command in a guild and is in one of its voice channels gets the
/// authorization link for their own id, and the run is for that channel, in whatever order
/// the voice states come and whoever else is in which channel.
pub proof fn law_caller_in_a_channel_gets_the_link(
    cfg: ConfigView,
    store: StoreView,
    guild: u64,
    states: Vec<VoiceState>,
    i: int,
    channel: u64,
)
    requires
        0 <= i < states@.len(),
        states@[i].channel == Some(channel),
        forall|j: int| 0 <= j < states@.len() && j != i ==> (#[trigger] states@[j]).user != states@[i].user,
    ensures
        ({
            let user = states@[i].user;
            let event = Event::Command { guild: Some(guild), states: Some(states), user };
            let step = next_step(cfg, store, Stage::Given@, event@);
            let url = auth_url(cfg, decimal(user as nat));
            &&& step.stage == (StageView::Linking {
                place: Place { guild, channel },
                user_id: decimal(user as nat),
            })
            &&& step.actions.len() == 1
            &&& step.actions[0] == ActionView::SendLink(
                "**Connect your Spotify account:**\n[Click here to authorize]("@ + url
                    + ")\n\n_This link expires in 5 minutes._"@,
            )
            &&& next_store(store, Stage::Given@, event@) == store
        }),
{
    law_first_state_decides(states@, states@[i].user);
}

/// A user whom no voice state puts into a channel is told to be in one first, and a user
/// outside of any guild is told to use one; nothing else happens then.
pub proof fn law_caller_outside_is_told_why(
    cfg: ConfigView,
    store: StoreView,
    guild: u64,
    states: Vec<VoiceState>,
    anything: Option<Vec<VoiceState>>,
    user: u64,
)
    requires
        forall|i: int|
            0 <= i < states@.len() && (#[trigger] states@[i]).user == user ==> states@[i].channel is None,
    ensures
        ({
            let absent = next_step(
                cfg,
                store,
                Stage::Given@,
                (Event::Command { guild: Some(guild), states: Some(states), user })@,
            );
            let unknown = next_step(
                cfg,
                store,
                Stage::Given@,
                (Event::Command { guild: Some(guild), states: None, user })@,
            );
            let outside = next_step(
                cfg,
                store,
                Stage::Given@,
                (Event::Command { guild: None, states: anything, user })@,
            );
            &&& absent.stage is Failed
            &&& absent.actions == seq![ActionView::Reply("You need to be in a voice channel first."@)]
            &&& unknown.stage is Failed
            &&& unknown.actions == seq![ActionView::Reply("You need to be in a voice channel first."@)]
            &&& outside.stage is Failed
            &&& outside.actions == seq![ActionView::Reply("This command must be used inside a server."@)]
        }),
{
    law_found_channel_is_named(states@, user);
}

/// Once the link was sent, the waiter waits for the user of this run, for five minutes, and
/// a waiter that waited for the user before is dropped, and no other.
pub proof fn law_waiter_takes_its_place(
    cfg: ConfigView,
    store: StoreView,
    place: Place,
    user_id: String,
    ticket: u64,
)
    ensures
        ({
            let stage = Stage::Linking { place, user_id }@;
            let event = Event::LinkSent { ticket }@;
            let step = next_step(cfg, store, stage, event);
            &&& step.stage == (StageView::AwaitingTokens { place, user_id: user_id@ })
            &&& step.actions.last() == (ActionView::AwaitTokens { seconds: 300 })
            &&& store.ticket(user_id@) is None ==> step.actions.len() == 1
            &&& store.ticket(user_id@) matches Some(earlier) ==> step.actions.len() == 2 && step.actions[0] == (
            ActionView::DropWaiter { ticket: earlier })
            &&& next_store(store, stage, event).ticket(user_id@) == Some(ticket)
        }),
{
}

/// Tokens that arrive lead on to the profile behind them, with the very token that came.
pub proof fn law_tokens_lead_to_the_profile(
    cfg: ConfigView,
    store: StoreView,
    place: Place,
    user_id: String,
    tokens: SpotifyTokens,
)
    ensures
        ({
            let stage = Stage::AwaitingTokens { place, user_id }@;
            let event = Event::TokensArrived(tokens)@;
            let step = next_step(cfg, store, stage, event);
            &&& step.stage == (StageView::AwaitingProfile { place, access_token: tokens.access_token@ })
            &&& step.actions == seq![ActionView::FetchProfile { access_token: tokens.access_token@ }]
            &&& next_store(store, stage, event) == store
        }),
{
}

/// A wait that ends without tokens ends the run: the user is told why, the waiter is dropped
/// if it is still there, and no other is.
pub proof fn law_failed_wait_ends_the_run(
    cfg: ConfigView,
    store: StoreView,
    place: Place,
    user_id: String,
    timed_out: bool,
)
    ensures
        ({
            let stage = Stage::AwaitingTokens { place, user_id }@;
            let event = if timed_out {
                Event::WaitTimedOut@
            } else {
                Event::WaitCancelled@
            };
            let step = next_step(cfg, store, stage, event);
            &&& step.stage is Failed
            &&& step.actions.last() == ActionView::FollowUp(
                if timed_out {
                    "❌ Authorization timed out. Please run the command again."@
                } else {
                    "❌ Authorization was cancelled."@
                },
            )
            &&& store.ticket(user_id@) is None ==> step.actions.len() == 1
            &&& store.ticket(user_id@) matches Some(ticket) ==> step.actions.len() == 2 && step.actions[0] == (
            ActionView::DropWaiter { ticket })
            &&& next_store(store, stage, event).ticket(user_id@) is None
        }),
{
}

/// The user is greeted by the display name, or else the id, or else as unknown, always by
/// the whole of it; the token and the channel are kept.
pub proof fn law_user_is_greeted_by_name(
    cfg: ConfigView,
    store: StoreView,
    place: Place,
    access_token: String,
    reply: ProfileReply,
    name: Seq<char>,
)
    requires
        name == (match reply {
            ProfileReply::Found(profile) => match profile.display_name {
                Some(display_name) => display_name@,
                None => profile.id@,
            },
            _ => "Unknown"@,
        }),
    ensures
        ({
            let stage = Stage::AwaitingProfile { place, access_token }@;
            let event = Event::ProfileReply(reply)@;
            let step = next_step(cfg, store, stage, event);
            &&& step.stage == (StageView::Greeting { place, access_token: access_token@, spotify_name: name })
            &&& step.actions == seq![
                ActionView::Greet(
                    "✅ Connected as **"@ + name
                        + "**. Joining your voice channel and registering as a Spotify Connect device…"@,
                ),
            ]
            &&& next_store(store, stage, event) == store
        }),
{
}

/// Once the user is greeted, the device is registered with the user's token under the name
/// that the bot has at that time.
pub proof fn law_device_bears_the_name_of_the_bot(
    cfg: ConfigView,
    store: StoreView,
    place: Place,
    access_token: String,
    spotify_name: String,
)
    ensures
        ({
            let stage = Stage::Greeting { place, access_token, spotify_name }@;
            let step = next_step(cfg, store, stage, Event::Greeted@);
            &&& step.stage == (StageView::AwaitingDevice {
                place,
                spotify_name: spotify_name@,
                device_name: store.bot_name,
            })
            &&& step.actions == seq![
                ActionView::CreateDevice { device_name: store.bot_name, access_token: access_token@ },
            ]
            &&& next_store(store, stage, Event::Greeted@) == store
        }),
{
}

/// A device that is there leads to the voice system, and the voice system into the channel
/// of this run; the names are kept.
pub proof fn law_device_leads_into_the_channel(
    cfg: ConfigView,
    store: StoreView,
    place: Place,
    spotify_name: String,
    device_name: String,
)
    ensures
        ({
            let device = Stage::AwaitingDevice { place, spotify_name, device_name }@;
            let voice = Stage::AwaitingVoiceSystem { place, spotify_name, device_name }@;
            let ready = next_step(cfg, store, device, Event::DeviceReady@);
            let found = next_step(cfg, store, voice, (Event::VoiceSystem { ready: true })@);
            &&& ready.stage == voice
            &&& ready.actions == seq![ActionView::FindVoiceSystem]
            &&& found.stage == (StageView::AwaitingJoin {
                place,
                spotify_name: spotify_name@,
                device_name: device_name@,
            })
            &&& found.actions == seq![ActionView::JoinVoice { place }]
        }),
{
}

/// What goes wrong with the device, the voice system or the channel ends the run, and the
/// user is told, with the whole reason where there is one. A device that is there by then
/// for nothing is shut down.
pub proof fn law_reasons_are_passed_on_whole(
    cfg: ConfigView,
    store: StoreView,
    place: Place,
    spotify_name: String,
    device_name: String,
    reason: String,
)
    ensures
        ({
            let device = Stage::AwaitingDevice { place, spotify_name, device_name }@;
            let voice = Stage::AwaitingVoiceSystem { place, spotify_name, device_name }@;
            let join = Stage::AwaitingJoin { place, spotify_name, device_name }@;
            let no_device = next_step(cfg, store, device, Event::DeviceFailed(reason)@);
            let no_voice = next_step(cfg, store, voice, (Event::VoiceSystem { ready: false })@);
            let no_join = next_step(cfg, store, join, Event::JoinFailed(reason)@);
            &&& no_device.stage is Failed
            &&& no_device.actions == seq![ActionView::FollowUp("❌ Spotify Connect error: "@ + reason@)]
            &&& no_voice.stage is Failed
            &&& no_voice.actions == seq![ActionView::FollowUp("❌ Internal error: voice system not ready."@)]
            &&& no_join.stage is Failed
            &&& no_join.actions == seq![
                ActionView::FollowUp("❌ Could not join voice channel: "@ + reason@),
                ActionView::ShutDownDevice,
            ]
        }),
{
}

/// Once the bot is in the channel, the sound of the device is played there, as it is made;
/// then the user and everybody are told, by the whole of both names; then the tasks of the
/// run begin, for this channel and this device.
pub proof fn law_music_plays_in_the_channel(
    cfg: ConfigView,
    store: StoreView,
    place: Place,
    spotify_name: String,
    device_name: String,
)
    ensures
        ({
            let stage = Stage::AwaitingJoin { place, spotify_name, device_name }@;
            let step = next_step(cfg, store, stage, Event::Joined@);
            let user = spotify_name@;
            let device = device_name@;
            &&& step.stage == (StageView::Playing { place, device_name: device })
            &&& step.actions.len() == 4
            &&& step.actions[0] == (ActionView::Play { sample_rate: 44_100, channels: 2 })
            &&& step.actions[1] == ActionView::FollowUp(
                "✅ **"@ + user + "** — open Spotify, pick **"@ + device
                    + "** as your device, then hit **Start a Jam** to share the link here!"@,
            )
            &&& step.actions[2] == ActionView::Announce(
                "🎵 **"@ + user + "** started a listening session on **"@ + device
                    + "**! Open Spotify → **Start a Jam** → I'll post the link here automatically."@,
            )
            &&& step.actions[3] == (ActionView::StartTasks { place, device_name: device })
            &&& next_store(store, stage, Event::Joined@) == store
        }),
{
}

/// What a stage does not await changes nothing, neither the run nor the store.
pub proof fn law_what_is_not_awaited_changes_nothing(
    cfg: ConfigView,
    store: StoreView,
    stage: StageView,
    event: EventView,
)
    requires
        !(stage is Given && event is Command),
        !(stage is Linking && event is LinkSent),
        !(stage is AwaitingTokens && (event is TokensArrived || event is WaitCancelled || event is WaitTimedOut)),
        !(stage is AwaitingProfile && event is ProfileReply),
        !(stage is Greeting && event is Greeted),
        !(stage is AwaitingDevice && (event is DeviceReady || event is DeviceFailed)),
        !(stage is AwaitingVoiceSystem && event is VoiceSystem),
        !(stage is AwaitingJoin && (event is Joined || event is JoinFailed)),
    ensures
        next_step(cfg, store, stage, event).stage == stage,
        next_step(cfg, store, stage, event).actions.len() == 0,
        next_store(store, stage, event) == store,
{
}

/// The store is touched only when a waiter takes its place and when a wait fails.
pub proof fn law_store_is_touched_by_waits_alone(store: StoreView, stage: StageView, event: EventView)
    requires
        next_store(store, stage, event) != store,
    ensures
        (stage is Linking && event is LinkSent) || (stage is AwaitingTokens && (event is WaitCancelled || event
            is WaitTimedOut)),
{
}

/// The message about a Jam names the device and holds the link, both whole.
pub proof fn law_jam_message_holds_the_link(device_name: Seq<char>, url: Seq<char>)
    ensures
        stripped(jam_text(device_name, url), "🎵 **"@ + device_name + "** — [Join the Jam]("@) == Some(
            url + seq![')'],
        ),
{
    reveal_strlit(")");
    assert(")"@ =~= seq![')']);
    let head = "🎵 **"@ + device_name + "** — [Join the Jam]("@;
    law_stripping_undoes_prepending(head, url + seq![')']);
    assert(jam_text(device_name, url) =~= head + (url + seq![')']));
}

/// What is to be done holds what its texts are, each in its own place.
pub proof fn law_actions_are_whole(text: String, other: String, place: Place, number: u64, rate: u32, channels: u32)
    ensures
        Action::Reply(text)@ == ActionView::Reply(text@),
        Action::SendLink(text)@ == ActionView::SendLink(text@),
        Action::FollowUp(text)@ == ActionView::FollowUp(text@),
        Action::Greet(text)@ == ActionView::Greet(text@),
        Action::Announce(text)@ == ActionView::Announce(text@),
        (Action::DropWaiter { ticket: number })@ == (ActionView::DropWaiter { ticket: number }),
        (Action::AwaitTokens { seconds: number })@ == (ActionView::AwaitTokens { seconds: number }),
        (Action::FetchProfile { access_token: text })@ == (ActionView::FetchProfile { access_token: text@ }),
        (Action::CreateDevice { device_name: text, access_token: other })@ == (ActionView::CreateDevice {
            device_name: text@,
            access_token: other@,
        }),
        Action::FindVoiceSystem@ is FindVoiceSystem,
        (Action::JoinVoice { place })@ == (ActionView::JoinVoice { place }),
        Action::ShutDownDevice@ is ShutDownDevice,
        (Action::Play { sample_rate: rate, channels })@ == (ActionView::Play { sample_rate: rate, channels }),
        (Action::StartTasks { place, device_name: text })@ == (ActionView::StartTasks { place, device_name: text@ }),
{
}

/// A stage holds what its texts are, each in its own place.
pub proof fn law_stages_are_whole(place: Place, text: String, other: String)
    ensures
        Stage::Given@ is Given,
        (Stage::Linking { place, user_id: text })@ == (StageView::Linking { place, user_id: text@ }),
        (Stage::AwaitingTokens { place, user_id: text })@ == (StageView::AwaitingTokens { place, user_id: text@ }),
        (Stage::AwaitingProfile { place, access_token: text })@ == (StageView::AwaitingProfile {
            place,
            access_token: text@,
        }),
        (Stage::AwaitingDevice { place, spotify_name: text, device_name: other })@ == (StageView::AwaitingDevice {
            place,
            spotify_name: text@,
            device_name: other@,
        }),
        (Stage::AwaitingVoiceSystem { place, spotify_name: text, device_name: other })@ == (
        StageView::AwaitingVoiceSystem { place, spotify_name: text@, device_name: other@ }),
        (Stage::AwaitingJoin { place, spotify_name: text, device_name: other })@ == (StageView::AwaitingJoin {
            place,
            spotify_name: text@,
            device_name: other@,
        }),
        (Stage::Playing { place, device_name: text })@ == (StageView::Playing { place, device_name: text@ }),
        Stage::Failed@ is Failed,
{
}

/// A user who is being greeted keeps token and name whole.
pub proof fn law_greeting_is_whole(place: Place, access_token: String, spotify_name: String)
    ensures
        (Stage::Greeting { place, access_token, spotify_name })@ == (StageView::Greeting {
            place,
            access_token: access_token@,
            spotify_name: spotify_name@,
        }),
{
}

/// A step holds each of its actions, in order, and no others.
pub proof fn law_steps_are_whole(step: Step)
    ensures
        step@.stage == step.stage@,
        step@.actions.len() == step.actions@.len(),
        forall|i: int| 0 <= i < step.actions@.len() ==> #[trigger] step@.actions[i] == step.actions@[i]@,
{
}

/// Once the watch wakes and nobody but the bot is in the channel, whoever is in others, it
/// shuts the device down, leaves and stops, in this order.
pub proof fn law_watch_ends_when_the_channel_is_empty(place: Place, states: Vec<VoiceState>, bot: u64)
    requires
        forall|i: int|
            0 <= i < states@.len() && (#[trigger] states@[i]).channel == Some(place.channel) ==> states@[i].user == bot,
    ensures
        watch_actions(place, (WatchEvent::Woke { states: Some(states), bot })) == seq![
            WatchAction::ShutDownDevice,
            WatchAction::LeaveVoice { guild: place.guild },
            WatchAction::Stop,
        ],
        watch_actions(place, (WatchEvent::Woke { states: None, bot })) == seq![
            WatchAction::ShutDownDevice,
            WatchAction::LeaveVoice { guild: place.guild },
            WatchAction::Stop,
        ],
{
}

/// As long as anybody but the bot is in the channel, the watch sleeps on, and it sleeps
/// first; nothing is shut down meanwhile.
pub proof fn law_watch_goes_on_while_somebody_listens(place: Place, states: Vec<VoiceState>, i: int, bot: u64)
    requires
        0 <= i < states@.len(),
        states@[i].channel == Some(place.channel),
        states@[i].user != bot,
    ensures
        watch_actions(place, (WatchEvent::Woke { states: Some(states), bot })) == seq![
            WatchAction::Sleep { seconds: 5 },
        ],
        watch_actions(place, WatchEvent::Started) == seq![WatchAction::Sleep { seconds: 5 }],
{
}

} // verus!
