//! What the Discord side and the web side of the bot share.

use dashmap::DashMap;
use vstd::prelude::*;
use vstd::string::*;

verus! {

/// A `dashmap` map.
#[verifier::external_type_specification]
#[verifier::external_body]
#[verifier::reject_recursive_types(K)]
#[verifier::reject_recursive_types(V)]
#[verifier::reject_recursive_types(S)]
pub struct ExDashMap<K, V, S>(dashmap::DashMap<K, V, S>);

/// What a map of pending authorizations holds: for each user the ticket of the
/// waiter.
pub uninterp spec fn pending_tickets(map: DashMap<String, u64>) -> Map<Seq<char>, u64>;

/// The ticket of `user`, if the user has one.
pub open spec fn ticket_of(tickets: Map<Seq<char>, u64>, user: Seq<char>) -> Option<u64> {
    if tickets.contains_key(user) {
        Some(tickets[user])
    } else {
        None
    }
}

/// No user has a ticket.
pub open spec fn nobody_waits() -> Map<Seq<char>, u64> {
    Map::empty()
}

/// Calls `DashMap::new`.
///
/// Believed of it: the map is empty.
#[verifier::external_body]
fn no_tickets() -> (map: DashMap<String, u64>)
    ensures
        pending_tickets(map) == nobody_waits(),
{
    DashMap::new()
}

/// Calls `DashMap::insert`.
///
/// Believed of it: the key then has the value, every other key has what it had, and
/// the value that the key had before is returned, if it had one. A reference into the
/// map would block the call; none is ever taken of a map that a `Store` holds.
#[verifier::external_body]
fn insert_ticket(map: &mut DashMap<String, u64>, user: String, ticket: u64) -> (displaced: Option<u64>)
    ensures
        pending_tickets(*final(map)) == pending_tickets(*old(map)).insert(user@, ticket),
        displaced == ticket_of(pending_tickets(*old(map)), user@),
{
    map.insert(user, ticket)
}

/// Calls `DashMap::remove`.
///
/// Believed of it: the key is then absent, every other key has what it had, and the
/// key is returned with its value, if it was there. A reference into the map would block
/// the call; none is ever taken of a map that a `Store` holds.
#[verifier::external_body]
fn remove_ticket(map: &mut DashMap<String, u64>, user: &str) -> (removed: Option<(String, u64)>)
    ensures
        pending_tickets(*final(map)) == pending_tickets(*old(map)).remove(user@),
        match removed {
            Some((key, ticket)) => key@ == user@ && ticket_of(pending_tickets(*old(map)), user@) == Some(ticket),
            None => ticket_of(pending_tickets(*old(map)), user@) is None,
        },
{
    map.remove(user)
}

/// The tokens that a completed authorization brings.
#[derive(Debug, Clone)]
pub struct SpotifyTokens {
    pub access_token: String,
    pub refresh_token: Option<String>,
}

/// What the Discord side and the web side of the bot share.
pub struct Store {
    /// The authorizations that are awaited: for each Discord user the ticket of the
    /// waiter. A ticket is a number that stands for one waiter.
    pending: DashMap<String, u64>,
    /// The name of the bot on Discord, known once it is connected. The Spotify Connect
    /// device bears it, so that users recognise it in the app.
    bot_name: String,
}

/// What a `Store` holds.
#[verifier::ext_equal]
pub struct StoreView {
    pub pending: Map<Seq<char>, u64>,
    pub bot_name: Seq<char>,
}

impl View for Store {
    type V = StoreView;

    closed spec fn view(&self) -> StoreView {
        StoreView { pending: pending_tickets(self.pending), bot_name: self.bot_name@ }
    }
}

impl StoreView {
    /// The store before anything happened.
    pub open spec fn fresh() -> StoreView {
        StoreView { pending: nobody_waits(), bot_name: "Discord Bot"@ }
    }

    /// The ticket that waits for the authorization of `user`.
    pub open spec fn ticket(self, user: Seq<char>) -> Option<u64> {
        ticket_of(self.pending, user)
    }

    /// The store with `ticket` waiting for the authorization of `user`.
    pub open spec fn waiting(self, user: Seq<char>, ticket: u64) -> StoreView {
        StoreView { pending: self.pending.insert(user, ticket), ..self }
    }

    /// The store with nobody waiting for the authorization of `user`.
    pub open spec fn settled(self, user: Seq<char>) -> StoreView {
        StoreView { pending: self.pending.remove(user), ..self }
    }

    /// The store with `name` as the name of the bot.
    pub open spec fn named(self, name: Seq<char>) -> StoreView {
        StoreView { bot_name: name, ..self }
    }

    /// Whether no ticket stands for two users.
    pub open spec fn tickets_are_distinct(self) -> bool {
        forall|left: Seq<char>, right: Seq<char>|
            #![trigger self.pending[left], self.pending[right]]
            self.pending.contains_key(left) && self.pending.contains_key(right) && self.pending[left]
                == self.pending[right] ==> left == right
    }
}

impl Store {
    /// A store in which nobody waits and the bot bears its first name.
    pub fn new() -> (store: Store)
        ensures
            store@ == StoreView::fresh(),
    {
        Store { pending: no_tickets(), bot_name: "Discord Bot".to_owned() }
    }

    /// Lets `ticket` wait for the authorization of `user`. A ticket that waited for it
    /// before is displaced, and returned.
    pub fn wait(&mut self, user: String, ticket: u64) -> (displaced: Option<u64>)
        ensures
            final(self)@ == old(self)@.waiting(user@, ticket),
            displaced == old(self)@.ticket(user@),
    {
        insert_ticket(&mut self.pending, user, ticket)
    }

    /// Ends the wait for the authorization of `user`, and returns the ticket that
    /// waited, if one did.
    pub fn settle(&mut self, user: &str) -> (ticket: Option<u64>)
        ensures
            final(self)@ == old(self)@.settled(user@),
            ticket == old(self)@.ticket(user@),
    {
        match remove_ticket(&mut self.pending, user) {
            Some((_, ticket)) => Some(ticket),
            None => None,
        }
    }

    /// The name of the bot.
    pub fn bot_name(&self) -> (name: &str)
        ensures
            name@ == self@.bot_name,
    {
        self.bot_name.as_str()
    }

    /// Takes note of the name of the bot.
    pub fn set_bot_name(&mut self, name: &str)
        ensures
            final(self)@ == (StoreView { bot_name: name@, ..old(self)@ }),
            final(self)@ == old(self)@.named(name@),
    {
        self.bot_name = name.to_owned();
    }
}

impl Default for Store {
    fn default() -> (store: Store)
        ensures
            store@ == StoreView::fresh(),
    {
        Store::new()
    }
}

/// A wait that is settled gives back the ticket that waited last, and leaves nobody
/// waiting for that user.
pub proof fn law_settling_gives_back_the_last_wait(store: StoreView, user: Seq<char>, ticket: u64)
    ensures
        store.waiting(user, ticket).ticket(user) == Some(ticket),
        store.settled(user).ticket(user) is None,
        store.waiting(user, ticket).settled(user) == store.settled(user),
{
    assert(store.waiting(user, ticket).settled(user) =~= store.settled(user));
}

/// Neither a wait nor its end touches what waits for other users.
pub proof fn law_users_do_not_interfere(store: StoreView, user: Seq<char>, ticket: u64, other: Seq<char>)
    requires
        other != user,
    ensures
        store.waiting(user, ticket).ticket(other) == store.ticket(other),
        store.settled(user).ticket(other) == store.ticket(other),
{
}

/// As long as each wait brings a ticket that nobody holds, no ticket ever stands for
/// two users.
pub proof fn law_tickets_stay_distinct(store: StoreView, user: Seq<char>, ticket: u64)
    requires
        store.tickets_are_distinct(),
        forall|other: Seq<char>| store.ticket(other) != Some(ticket),
    ensures
        StoreView::fresh().tickets_are_distinct(),
        store.waiting(user, ticket).tickets_are_distinct(),
        store.settled(user).tickets_are_distinct(),
{
    let after = store.waiting(user, ticket);
    assert forall|left: Seq<char>, right: Seq<char>|
        #![trigger after.pending[left], after.pending[right]]
        after.pending.contains_key(left) && after.pending.contains_key(right) && after.pending[left]
            == after.pending[right] implies left == right by {
        assert(store.ticket(left) != Some(ticket));
        assert(store.ticket(right) != Some(ticket));
        if left != user && right != user {
            assert(store.pending[left] == store.pending[right]);
        }
    }
    let settled = store.settled(user);
    assert forall|left: Seq<char>, right: Seq<char>|
        #![trigger settled.pending[left], settled.pending[right]]
        settled.pending.contains_key(left) && settled.pending.contains_key(right) && settled.pending[left]
            == settled.pending[right] implies left == right by {
        assert(store.pending[left] == store.pending[right]);
    }
}

/// In a store that nothing has happened to, nobody waits, and the bot has the name that it
/// goes by until Discord tells its own.
pub proof fn law_nobody_waits_at_first(user: Seq<char>)
    ensures
        StoreView::fresh().ticket(user) is None,
        StoreView::fresh().bot_name == "Discord Bot"@,
{
}

/// The ticket of a user is the one that is kept under the user's id, and there is one
/// exactly where one is kept.
pub proof fn law_ticket_is_the_one_kept(store: StoreView, user: Seq<char>)
    ensures
        store.ticket(user) is Some <==> store.pending.dom().contains(user),
        store.ticket(user) matches Some(ticket) ==> store.pending[user] == ticket,
{
}

/// Neither a wait nor its end changes the name of the bot, and a new name changes nothing
/// about who waits.
pub proof fn law_name_and_waits_are_apart(store: StoreView, user: Seq<char>, ticket: u64, name: Seq<char>)
    ensures
        store.waiting(user, ticket).bot_name == store.bot_name,
        store.settled(user).bot_name == store.bot_name,
        store.named(name).bot_name == name,
        forall|other: Seq<char>| #[trigger] store.named(name).ticket(other) == store.ticket(other),
{
}

} // verus!
