//! Who is in which voice channel.

use vstd::prelude::*;

verus! {

/// Where a user of a guild is: in a voice channel, or in none.
#[derive(Debug, Clone, Copy, PartialEq, Eq, Structural)]
pub struct VoiceState {
    pub user: u64,
    pub channel: Option<u64>,
}

/// The voice channel that `user` is in, by the first state that speaks of the user.
pub open spec fn channel_of(states: Seq<VoiceState>, user: u64) -> Option<u64>
    decreases states.len(),
{
    if states.len() == 0 {
        None
    } else if states[0].user == user {
        states[0].channel
    } else {
        channel_of(states.skip(1), user)
    }
}

/// The voice channel that `user` is in.
pub fn find_channel(states: &Vec<VoiceState>, user: u64) -> (channel: Option<u64>)
    ensures
        channel == channel_of(states@, user),
{
    assert(states@.skip(0) =~= states@);
    for i in 0..states.len()
        invariant
            channel_of(states@, user) == channel_of(states@.skip(i as int), user),
    {
        assert(states@.skip(i as int)[0] == states@[i as int]);
        assert(states@.skip(i as int).skip(1) =~= states@.skip(i + 1));
        if states[i].user == user {
            return states[i].channel;
        }
    }
    None
}

/// Whether somebody other than the bot is in `channel`. Of a guild that nothing is known
/// of, nobody is.
pub open spec fn has_company(states: Option<Seq<VoiceState>>, channel: u64, bot: u64) -> bool {
    match states {
        Some(states) => exists|i: int|
            0 <= i < states.len() && (#[trigger] states[i]).channel == Some(channel) && states[i].user != bot,
        None => false,
    }
}

/// The states of a guild, where they are known.
pub open spec fn known_states(states: Option<Vec<VoiceState>>) -> Option<Seq<VoiceState>> {
    match states {
        Some(states) => Some(states@),
        None => None,
    }
}

/// Whether somebody other than the bot is still in `channel`. Once nobody is, the
/// device is shut down and the bot leaves.
pub fn still_connected(states: &Option<Vec<VoiceState>>, channel: u64, bot: u64) -> (connected: bool)
    ensures
        connected == has_company(known_states(*states), channel, bot),
{
    match states {
        Some(known) => {
            for i in 0..known.len()
                invariant
                    known_states(*states) == Some(known@),
                    forall|j: int|
                        0 <= j < i ==> !((#[trigger] known@[j]).channel == Some(channel) && known@[j].user != bot),
            {
                let state = known[i];
                if let Some(present) = state.channel {
                    if present == channel && state.user != bot {
                        assert(known@[i as int].channel == Some(channel));
                        return true;
                    }
                }
            }
            false
        },
        None => false,
    }
}

/// A channel in which the bot is alone counts as empty.
pub proof fn law_bot_is_no_company(states: Seq<VoiceState>, channel: u64, bot: u64)
    requires
        forall|i: int| 0 <= i < states.len() && (#[trigger] states[i]).channel == Some(channel) ==> states[i].user == bot,
    ensures
        !has_company(Some(states), channel, bot),
{
}

/// The channel that a user was found in has company as long as nothing changes, unless
/// that user is the bot.
pub proof fn law_found_user_is_company(states: Seq<VoiceState>, user: u64, bot: u64)
    requires
        user != bot,
    ensures
        channel_of(states, user) matches Some(channel) ==> has_company(Some(states), channel, bot),
    decreases states.len(),
{
    if states.len() > 0 {
        let rest = states.skip(1);
        law_found_user_is_company(rest, user, bot);
        if let Some(channel) = channel_of(states, user) {
            if states[0].user == user {
                assert(states[0].channel == Some(channel));
            } else {
                let i = choose|i: int|
                    0 <= i < rest.len() && (#[trigger] rest[i]).channel == Some(channel) && rest[i].user != bot;
                assert(states[i + 1] == rest[i]);
            }
        }
    }
}

/// The first state that speaks of a user decides, wherever it stands and whatever the
/// others are; a user whom no state speaks of is in no channel.
pub proof fn law_first_state_decides(states: Seq<VoiceState>, user: u64)
    ensures
        forall|i: int|
            0 <= i < states.len() && (#[trigger] states[i]).user == user && (forall|j: int|
                0 <= j < i ==> (#[trigger] states[j]).user != user) ==> channel_of(states, user) == states[i].channel,
        (forall|i: int| 0 <= i < states.len() ==> (#[trigger] states[i]).user != user) ==> channel_of(states, user)
            is None,
    decreases states.len(),
{
    if states.len() > 0 {
        let rest = states.skip(1);
        law_first_state_decides(rest, user);
        assert forall|i: int|
            0 <= i < states.len() && (#[trigger] states[i]).user == user && (forall|j: int|
                0 <= j < i ==> (#[trigger] states[j]).user != user) implies channel_of(states, user)
            == states[i].channel by {
            if i > 0 {
                assert(states[0].user != user);
                assert(rest[i - 1] == states[i]);
                assert forall|j: int| 0 <= j < i - 1 implies (#[trigger] rest[j]).user != user by {
                    assert(rest[j] == states[j + 1]);
                }
            }
        }
        if forall|i: int| 0 <= i < states.len() ==> (#[trigger] states[i]).user != user {
            assert(states[0].user != user);
            assert forall|i: int| 0 <= i < rest.len() implies (#[trigger] rest[i]).user != user by {
                assert(rest[i] == states[i + 1]);
            }
        }
    }
}

/// Where each user has one state, every user is found in the channel that their state
/// names, in whatever order the states come; and a user is found in no channel only if no
/// state of theirs names one.
pub proof fn law_every_user_is_found(states: Seq<VoiceState>, user: u64)
    requires
        forall|i: int, j: int|
            0 <= i < j < states.len() ==> (#[trigger] states[i]).user != (#[trigger] states[j]).user,
    ensures
        forall|i: int|
            0 <= i < states.len() ==> channel_of(states, (#[trigger] states[i]).user) == states[i].channel,
        channel_of(states, user) is None <==> (forall|i: int|
            0 <= i < states.len() && (#[trigger] states[i]).user == user ==> states[i].channel is None),
{
    assert forall|i: int| 0 <= i < states.len() implies channel_of(states, (#[trigger] states[i]).user)
        == states[i].channel by {
        law_first_state_decides(states, states[i].user);
    }
    law_first_state_decides(states, user);
}

/// A channel that a user is found in is one that a state of that user names.
pub proof fn law_found_channel_is_named(states: Seq<VoiceState>, user: u64)
    ensures
        channel_of(states, user) matches Some(channel) ==> exists|i: int|
            0 <= i < states.len() && (#[trigger] states[i]).user == user && states[i].channel == Some(channel),
    decreases states.len(),
{
    if states.len() > 0 && channel_of(states, user) is Some {
        if states[0].user != user {
            let rest = states.skip(1);
            law_found_channel_is_named(rest, user);
            let i = choose|i: int|
                0 <= i < rest.len() && (#[trigger] rest[i]).user == user && rest[i].channel == channel_of(rest, user);
            assert(states[i + 1] == rest[i]);
        }
    }
}

/// Anybody but the bot who is in the channel is company, wherever in the states they
/// stand; where nothing is known of the guild, nobody is.
pub proof fn law_anybody_else_is_company(states: Vec<VoiceState>, i: int, channel: u64, bot: u64)
    requires
        0 <= i < states@.len(),
        states@[i].channel == Some(channel),
        states@[i].user != bot,
    ensures
        has_company(known_states(Some(states)), channel, bot),
        !has_company(known_states(None), channel, bot),
{
}

} // verus!
