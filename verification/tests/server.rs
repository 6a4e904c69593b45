use discord_spotify_bot::config::Config;
use discord_spotify_bot::server::{callback_end, callback_step, listen_addr, redirect_url, CallbackParams, CallbackStep};
use discord_spotify_bot::spotify::auth::{build_auth_url, ExchangeError, TokenResponse};
use discord_spotify_bot::store::Store;

fn config() -> Config {
    Config {
        discord_token: String::new(),
        discord_client_id: 1,
        discord_guild_id: 2,
        spotify_client_id: "client".to_string(),
        spotify_client_secret: "secret".to_string(),
        spotify_redirect_uri: "uri".to_string(),
        auth_server_port: 65535,
    }
}

fn some(text: &str) -> Option<String> {
    Some(text.to_string())
}

fn tokens() -> TokenResponse {
    TokenResponse {
        access_token: "access".to_string(),
        refresh_token: None,
        expires_in: 3600,
        token_type: "Bearer".to_string(),
    }
}

fn answer(code: Option<String>, state: Option<String>, error: Option<String>) -> String {
    match callback_step(CallbackParams { code, state, error }) {
        CallbackStep::Answer(page) => page,
        CallbackStep::Exchange { .. } => panic!("a code was exchanged"),
    }
}

#[test]
fn the_server_listens_on_every_interface() {
    assert_eq!(listen_addr(&config()), "0.0.0.0:65535");
}

#[test]
fn users_are_sent_to_spotify() {
    let cfg = config();
    assert_eq!(redirect_url(&cfg, Some("42")), build_auth_url(&cfg, "42"));
    assert_eq!(redirect_url(&cfg, None), build_auth_url(&cfg, ""));
    assert!(redirect_url(&cfg, None).ends_with("&state="));
}

#[test]
fn a_denial_is_shown() {
    let page = "<h1>Authorization denied</h1><p>access_denied</p><p>You can close this tab.</p>";
    assert_eq!(answer(some("code"), some("42"), some("access_denied")), page);
    assert_eq!(answer(None, None, some("access_denied")), page);
}

#[test]
fn code_and_state_are_needed() {
    let no_code = "<h1>Missing code</h1><p>Something went wrong. Please try again.</p>";
    assert_eq!(answer(None, some("42"), None), no_code);
    assert_eq!(answer(None, None, None), no_code);
    assert_eq!(answer(some("code"), None, None), "<h1>Missing state</h1><p>Cannot identify the Discord user.</p>");
}

#[test]
fn a_code_is_exchanged() {
    let step = callback_step(CallbackParams { code: some("code"), state: some("42"), error: None });
    match step {
        CallbackStep::Exchange { code, user_id } => {
            assert_eq!(code, "code");
            assert_eq!(user_id, "42");
        }
        CallbackStep::Answer(page) => panic!("{page}"),
    }
}

#[test]
fn tokens_go_to_the_user_who_asked() {
    let mut store = Store::new();
    store.wait("42".to_string(), 7);
    store.wait("43".to_string(), 8);
    let end = callback_end(&mut store, "42", Ok(tokens()));
    assert_eq!(
        end.page,
        "<h1>\u{2705} Connected to Spotify!</h1><p>You can close this tab and go back to Discord.</p>"
    );
    let delivery = end.delivery.unwrap();
    assert_eq!(delivery.ticket, 7);
    assert_eq!(delivery.tokens.access_token, "access");
    assert_eq!(delivery.tokens.refresh_token, None);
    assert_eq!(store.settle("43"), Some(8));
}

#[test]
fn tokens_are_delivered_once() {
    let mut store = Store::new();
    store.wait("42".to_string(), 7);
    assert!(callback_end(&mut store, "42", Ok(tokens())).delivery.is_some());
    let again = callback_end(&mut store, "42", Ok(tokens()));
    assert!(again.delivery.is_none());
    assert!(again.page.contains("Connected to Spotify!"));
}

#[test]
fn a_failed_exchange_leaves_the_wait() {
    let mut store = Store::new();
    store.wait("42".to_string(), 7);
    let end = callback_end(&mut store, "42", Err(ExchangeError::Refused("no".to_string())));
    assert_eq!(end.page, "<h1>Error</h1><p>Spotify token exchange error: no</p>");
    assert!(end.delivery.is_none());
    assert_eq!(store.settle("42"), Some(7));
}
