//! The web server that sends users to Spotify and takes them back.

use vstd::prelude::*;
use vstd::string::*;

use crate::config::{Config, ConfigView};
use crate::spotify::auth::{
    auth_url, build_auth_url, law_auth_url_brings_the_state_back, law_auth_url_ends_with_the_state, query_parameters,
    ExchangeError, TokenResponse,
};
use crate::store::{law_settling_gives_back_the_last_wait, SpotifyTokens, Store, StoreView};
use crate::text::{
    decimal, decimal_text, law_decimal_injective, law_numeral_round_trip, law_stripping_undoes_prepending,
    numeral_value, slice_text, stripped, text_of,
};

verus! {

/// The address that the server listens on.
pub open spec fn listen_text(cfg: ConfigView) -> Seq<char> {
    "0.0.0.0:"@ + decimal(cfg.auth_server_port)
}

/// The address that the server listens on: every interface, at the port that is set.
pub fn listen_addr(cfg: &Config) -> (address: String)
    ensures
        address@ == "0.0.0.0:"@ + decimal(cfg@.auth_server_port),
        address@ == listen_text(cfg@),
{
    "0.0.0.0:".to_owned().concat(decimal_text(cfg.auth_server_port as u64).as_str())
}

/// A state that may be missing counts as empty then.
pub open spec fn state_or_empty(state: Option<Seq<char>>) -> Seq<char> {
    match state {
        Some(state) => state,
        None => Seq::empty(),
    }
}

/// Where a user who comes with `state` is sent: to Spotify's authorization page.
pub fn redirect_url(cfg: &Config, state: Option<&str>) -> (url: String)
    ensures
        url@ == auth_url(cfg@, state_or_empty(slice_text(state))),
{
    match state {
        Some(state) => build_auth_url(cfg, state),
        None => build_auth_url(cfg, String::new().as_str()),
    }
}

/// What Spotify sends a user back with.
pub struct CallbackParams {
    pub code: Option<String>,
    pub state: Option<String>,
    pub error: Option<String>,
}

/// What is done for a user who comes back.
pub enum CallbackStep {
    /// A page is shown.
    Answer(String),
    /// The code is exchanged for the tokens of the user.
    Exchange { code: String, user_id: String },
}

/// What a `CallbackStep` holds.
pub enum CallbackStepView {
    Answer(Seq<char>),
    Exchange { code: Seq<char>, user_id: Seq<char> },
}

impl View for CallbackStep {
    type V = CallbackStepView;

    open spec fn view(&self) -> CallbackStepView {
        match self {
            CallbackStep::Answer(page) => CallbackStepView::Answer(page@),
            CallbackStep::Exchange { code, user_id } => CallbackStepView::Exchange { code: code@, user_id: user_id@ },
        }
    }
}

/// What is done for a user who comes back: an error goes before a missing code, and a
/// missing code before a missing state.
pub open spec fn step_for(
    code: Option<Seq<char>>,
    state: Option<Seq<char>>,
    error: Option<Seq<char>>,
) -> CallbackStepView {
    if let Some(error) = error {
        CallbackStepView::Answer(
            "<h1>Authorization denied</h1><p>"@ + error + "</p><p>You can close this tab.</p>"@,
        )
    } else if let Some(code) = code {
        if let Some(user_id) = state {
            CallbackStepView::Exchange { code, user_id }
        } else {
            CallbackStepView::Answer("<h1>Missing state</h1><p>Cannot identify the Discord user.</p>"@)
        }
    } else {
        CallbackStepView::Answer("<h1>Missing code</h1><p>Something went wrong. Please try again.</p>"@)
    }
}

/// What is done for a user who comes back.
pub fn callback_step(params: CallbackParams) -> (step: CallbackStep)
    ensures
        step@ == step_for(text_of(params.code), text_of(params.state), text_of(params.error)),
{
    if let Some(error) = params.error {
        let mut page = "<h1>Authorization denied</h1><p>".to_owned();
        page.append(error.as_str());
        page.append("</p><p>You can close this tab.</p>");
        return CallbackStep::Answer(page);
    }
    let code = match params.code {
        Some(code) => code,
        None => {
            return CallbackStep::Answer(
                "<h1>Missing code</h1><p>Something went wrong. Please try again.</p>".to_owned(),
            );
        },
    };
    match params.state {
        Some(user_id) => CallbackStep::Exchange { code, user_id },
        None => CallbackStep::Answer(
            "<h1>Missing state</h1><p>Cannot identify the Discord user.</p>".to_owned(),
        ),
    }
}

/// Tokens for the waiter that holds a ticket.
pub struct Delivery {
    pub ticket: u64,
    pub tokens: SpotifyTokens,
}

/// How the exchange of a code ends.
pub struct CallbackEnd {
    /// The page that the user is shown.
    pub page: String,
    /// The tokens, where somebody waits for them.
    pub delivery: Option<Delivery>,
}

/// The page that the user is shown when an exchange has ended.
pub open spec fn end_page(result: Result<TokenResponse, ExchangeError>) -> Seq<char> {
    match result {
        Ok(_) => "<h1>✅ Connected to Spotify!</h1><p>You can close this tab and go back to Discord.</p>"@,
        Err(error) => "<h1>Error</h1><p>"@ + error@.message() + "</p>"@,
    }
}

/// The tokens go to the waiter of the user, if there is one.
pub open spec fn delivery_for(
    store: StoreView,
    user_id: Seq<char>,
    result: Result<TokenResponse, ExchangeError>,
) -> Option<Delivery> {
    match (result, store.ticket(user_id)) {
        (Ok(response), Some(ticket)) => Some(
            Delivery {
                ticket,
                tokens: SpotifyTokens {
                    access_token: response.access_token,
                    refresh_token: response.refresh_token,
                },
            },
        ),
        _ => None,
    }
}

/// The store when an exchange has ended: a success settles the wait of the user, and a
/// failure leaves it as it is.
pub open spec fn store_after_exchange(
    store: StoreView,
    user_id: Seq<char>,
    result: Result<TokenResponse, ExchangeError>,
) -> StoreView {
    match result {
        Ok(_) => store.settled(user_id),
        Err(_) => store,
    }
}

/// Ends the exchange of a code: hands the tokens to the waiter of the user and says what
/// page is shown. The page does not depend on whether somebody waits.
pub fn callback_end(
    store: &mut Store,
    user_id: &str,
    result: Result<TokenResponse, ExchangeError>,
) -> (end: CallbackEnd)
    ensures
        end.page@ == end_page(result),
        end.delivery == delivery_for(old(store)@, user_id@, result),
        final(store)@ == store_after_exchange(old(store)@, user_id@, result),
{
    match result {
        Ok(response) => {
            let delivery = match store.settle(user_id) {
                Some(ticket) => Some(
                    Delivery {
                        ticket,
                        tokens: SpotifyTokens {
                            access_token: response.access_token,
                            refresh_token: response.refresh_token,
                        },
                    },
                ),
                None => None,
            };
            CallbackEnd {
                page: "<h1>✅ Connected to Spotify!</h1><p>You can close this tab and go back to Discord.</p>".to_owned(),
                delivery,
            }
        },
        Err(error) => {
            let mut page = "<h1>Error</h1><p>".to_owned();
            page.append(error.message().as_str());
            page.append("</p>");
            CallbackEnd { page, delivery: None }
        },
    }
}

/// An error that Spotify reports ends the matter, whatever code and state come with it:
/// no code is exchanged.
pub proof fn law_denial_wins(code: Option<Seq<char>>, state: Option<Seq<char>>, error: Seq<char>)
    ensures
        step_for(code, state, Some(error)) is Answer,
{
}

/// A code is exchanged only if Spotify reported no error and sent both a code and a
/// state, and then for the user whom the state names.
pub proof fn law_exchange_needs_code_and_state(
    code: Option<Seq<char>>,
    state: Option<Seq<char>>,
    error: Option<Seq<char>>,
)
    ensures
        step_for(code, state, error) is Exchange <==> error is None && code is Some && state is Some,
        step_for(code, state, error) matches CallbackStepView::Exchange { code: c, user_id } ==> code == Some(c)
            && state == Some(user_id),
{
}

/// The tokens of a user go to whoever waits for that user, and to nobody else: with a
/// ticket waiting for one user, the callback of that user delivers to it, and the
/// callback of another leaves it waiting.
pub proof fn law_tokens_go_to_the_user_who_asked(
    store: StoreView,
    user: u64,
    other: u64,
    ticket: u64,
    code: Seq<char>,
    response: TokenResponse,
)
    requires
        other != user,
    ensures
        step_for(Some(code), Some(decimal(user as nat)), None) == (CallbackStepView::Exchange {
            code,
            user_id: decimal(user as nat),
        }),
        delivery_for(store.waiting(decimal(user as nat), ticket), decimal(user as nat), Ok(response)) == Some(
            Delivery {
                ticket,
                tokens: SpotifyTokens {
                    access_token: response.access_token,
                    refresh_token: response.refresh_token,
                },
            },
        ),
        store_after_exchange(
            store.waiting(decimal(user as nat), ticket),
            decimal(other as nat),
            Ok(response),
        ).ticket(decimal(user as nat)) == Some(ticket),
{
    law_settling_gives_back_the_last_wait(store, decimal(user as nat), ticket);
    if decimal(user as nat) == decimal(other as nat) {
        law_decimal_injective(user as nat, other as nat);
    }
}

/// No tokens are delivered twice: a second callback of the same user finds nobody
/// waiting.
pub proof fn law_tokens_are_delivered_once(
    store: StoreView,
    user_id: Seq<char>,
    first: TokenResponse,
    second: Result<TokenResponse, ExchangeError>,
)
    ensures
        delivery_for(store_after_exchange(store, user_id, Ok(first)), user_id, second) is None,
{
}

/// An exchange that failed delivers nothing and changes nothing.
pub proof fn law_failed_exchange_changes_nothing(store: StoreView, user_id: Seq<char>, error: ExchangeError)
    ensures
        delivery_for(store, user_id, Err(error)) is None,
        store_after_exchange(store, user_id, Err(error)) == store,
{
}

/// The address names the port that is set, behind the address of every interface.
pub proof fn law_server_listens_at_its_port(cfg: Config)
    ensures
        stripped(listen_text(cfg@), "0.0.0.0:"@) is Some,
        numeral_value(stripped(listen_text(cfg@), "0.0.0.0:"@)->0, u16::MAX as nat) == Some(
            cfg.auth_server_port as nat,
        ),
{
    law_stripping_undoes_prepending("0.0.0.0:"@, decimal(cfg.auth_server_port as nat));
    law_numeral_round_trip(cfg.auth_server_port as nat, u16::MAX as nat);
}

/// A user is sent on with the very state that they came with: it is the last parameter of
/// the link. An ampersand in the state would end it, and a hash in the state or the client
/// id would cut it off.
pub proof fn law_redirect_carries_the_state(cfg: ConfigView, state: &str)
    requires
        !cfg.spotify_client_id.contains('#'),
        !state@.contains('&'),
        !state@.contains('#'),
    ensures
        query_parameters(auth_url(cfg, state_or_empty(slice_text(Some(state))))).last() == "state="@ + state@,
{
    law_auth_url_brings_the_state_back(cfg, state@);
}

/// Whatever the state and the settings hold, the link that a user is sent to ends with the
/// whole state; a user who came with none is sent to the same link with nothing in its
/// place.
pub proof fn law_redirect_ends_with_the_state(cfg: ConfigView, state: &str)
    ensures
        auth_url(cfg, state_or_empty(slice_text(Some(state)))) == auth_url(cfg, state_or_empty(slice_text(None)))
            + state@,
        "&state="@.is_suffix_of(auth_url(cfg, state_or_empty(slice_text(None)))),
{
    law_auth_url_ends_with_the_state(cfg, state@);
}

/// The user reads why nothing came of it: the whole of what Spotify reported where it
/// reported an error, or else what was missing, the code before the state.
pub proof fn law_answers_say_what_is_wrong(
    code: Option<Seq<char>>,
    state: Option<Seq<char>>,
    error: Seq<char>,
)
    ensures
        step_for(code, state, Some(error)) is Answer,
        stripped(step_for(code, state, Some(error))->0, "<h1>Authorization denied</h1><p>"@) == Some(
            error + "</p><p>You can close this tab.</p>"@,
        ),
        step_for(None, state, None) == CallbackStepView::Answer(
            "<h1>Missing code</h1><p>Something went wrong. Please try again.</p>"@,
        ),
        code is Some ==> step_for(code, None, None) == CallbackStepView::Answer(
            "<h1>Missing state</h1><p>Cannot identify the Discord user.</p>"@,
        ),
{
    let tail = "</p><p>You can close this tab.</p>"@;
    law_stripping_undoes_prepending("<h1>Authorization denied</h1><p>"@, error + tail);
    assert("<h1>Authorization denied</h1><p>"@ + error + tail =~= "<h1>Authorization denied</h1><p>"@ + (error + tail));
}

/// What comes back is taken as it is: the code and the user go on whole.
pub proof fn law_step_is_whole(step: CallbackStep)
    ensures
        step matches CallbackStep::Answer(page) ==> step@ == CallbackStepView::Answer(page@),
        step matches CallbackStep::Exchange { code, user_id } ==> step@ == (CallbackStepView::Exchange {
            code: code@,
            user_id: user_id@,
        }),
{
}

/// Tokens are delivered where the exchange succeeded and somebody waits for the user, and
/// only there: to the ticket that waits, and just as Spotify sent them.
pub proof fn law_tokens_reach_whoever_waits(
    store: StoreView,
    user_id: Seq<char>,
    result: Result<TokenResponse, ExchangeError>,
)
    ensures
        delivery_for(store, user_id, result) is Some <==> result is Ok && store.pending.dom().contains(user_id),
        delivery_for(store, user_id, result) matches Some(delivery) ==> {
            &&& delivery.ticket == store.pending[user_id]
            &&& delivery.tokens.access_token == result->Ok_0.access_token
            &&& delivery.tokens.refresh_token == result->Ok_0.refresh_token
        },
{
}

/// An exchange that succeeded leaves nobody waiting for the user, and touches nothing else.
pub proof fn law_exchange_settles_one_wait(
    store: StoreView,
    user_id: Seq<char>,
    response: TokenResponse,
    other: Seq<char>,
)
    ensures
        store_after_exchange(store, user_id, Ok(response)).ticket(user_id) is None,
        other != user_id ==> store_after_exchange(store, user_id, Ok(response)).ticket(other) == store.ticket(other),
        store_after_exchange(store, user_id, Ok(response)).bot_name == store.bot_name,
{
}

/// Every success is shown the same page, and every failure a page that holds the whole
/// sentence that reports it.
pub proof fn law_pages_of_an_exchange(response: TokenResponse, error: ExchangeError)
    ensures
        end_page(Ok(response))
            == "<h1>✅ Connected to Spotify!</h1><p>You can close this tab and go back to Discord.</p>"@,
        stripped(end_page(Err(error)), "<h1>Error</h1><p>"@) == Some(error@.message() + "</p>"@),
{
    let message = error@.message();
    law_stripping_undoes_prepending("<h1>Error</h1><p>"@, message + "</p>"@);
    assert("<h1>Error</h1><p>"@ + message + "</p>"@ =~= "<h1>Error</h1><p>"@ + (message + "</p>"@));
}

} // verus!
