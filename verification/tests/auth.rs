use discord_spotify_bot::config::Config;
use discord_spotify_bot::spotify::auth::{
    build_auth_url, encode, is_success, profile_outcome, token_outcome, token_request, ExchangeError, Profile, ProfileError,
    ProfileReply, TokenReply, TokenResponse,
};

fn config(client: &str, secret: &str, redirect: &str) -> Config {
    Config {
        discord_token: String::new(),
        discord_client_id: 1,
        discord_guild_id: 2,
        spotify_client_id: client.to_string(),
        spotify_client_secret: secret.to_string(),
        spotify_redirect_uri: redirect.to_string(),
        auth_server_port: 3000,
    }
}

fn tokens() -> TokenResponse {
    TokenResponse {
        access_token: "access".to_string(),
        refresh_token: Some("refresh".to_string()),
        expires_in: 3600,
        token_type: "Bearer".to_string(),
    }
}

#[test]
fn text_is_form_encoded() {
    assert_eq!(encode(""), "");
    assert_eq!(encode("AZaz09*-._"), "AZaz09*-._");
    assert_eq!(encode("a b"), "a+b");
    assert_eq!(encode("http://x:1/?a=b&c#d+e%f~"), "http%3A%2F%2Fx%3A1%2F%3Fa%3Db%26c%23d%2Be%25f%7E");
    assert_eq!(encode("\u{00e9}\u{1f3b5}\n"), "%C3%A9%F0%9F%8E%B5%0A");
}

#[test]
fn every_ascii_character_is_encoded_as_stated() {
    for byte in 0u8..128 {
        let c = byte as char;
        let expected = if c.is_ascii_alphanumeric() || "*-._".contains(c) {
            c.to_string()
        } else if c == ' ' {
            "+".to_string()
        } else {
            format!("%{byte:02X}")
        };
        assert_eq!(encode(&c.to_string()), expected);
    }
}

#[test]
fn the_authorization_link_is_complete() {
    let cfg = config("client", "secret", "http://localhost:3000/auth/callback");
    assert_eq!(
        build_auth_url(&cfg, "42"),
        "https://accounts.spotify.com/authorize?response_type=code&client_id=client\
         &scope=streaming+user-read-email+user-read-private+user-read-playback-state\
         +user-modify-playback-state+user-read-currently-playing\
         &redirect_uri=http%3A%2F%2Flocalhost%3A3000%2Fauth%2Fcallback&state=42"
    );
}

#[test]
fn the_authorization_link_has_five_parameters() {
    let cfg = config("client", "secret", "http://x/?a=1&b=2#c");
    let url = build_auth_url(&cfg, "7");
    let (page, query) = url.split_once('?').unwrap();
    assert_eq!(page, "https://accounts.spotify.com/authorize");
    let parameters: Vec<&str> = query.split('&').collect();
    assert_eq!(parameters.len(), 5);
    assert_eq!(parameters[0], "response_type=code");
    assert_eq!(parameters[1], "client_id=client");
    assert_eq!(parameters[3], "redirect_uri=http%3A%2F%2Fx%2F%3Fa%3D1%26b%3D2%23c");
    assert_eq!(parameters[4], "state=7");
}

#[test]
fn the_last_parameter_names_the_user_whatever_the_client_id_is() {
    for client in ["", "a&state=1", "a&b=?", "&&"] {
        let url = build_auth_url(&config(client, "secret", "uri#&"), "42");
        let (_, query) = url.split_once('?').unwrap();
        assert_eq!(query.split('&').last(), Some("state=42"));
    }
}

#[test]
fn links_for_different_users_differ() {
    let cfg = config("client", "secret", "uri");
    assert_ne!(build_auth_url(&cfg, "1"), build_auth_url(&cfg, "11"));
}

#[test]
fn the_request_for_tokens_is_complete() {
    let request = token_request(&config("id", "secret", "http://here"), "the code");
    assert_eq!(request.url, "https://accounts.spotify.com/api/token");
    assert_eq!(request.authorization, "Basic aWQ6c2VjcmV0");
    assert_eq!(request.grant_type, "authorization_code");
    assert_eq!(request.code, "the code");
    assert_eq!(request.redirect_uri, "http://here");
}

#[test]
fn credentials_are_padded() {
    assert_eq!(token_request(&config("", "", ""), "").authorization, "Basic Og==");
    assert_eq!(token_request(&config("a", "", ""), "").authorization, "Basic YTo=");
    assert_eq!(token_request(&config("a", "b", ""), "").authorization, "Basic YTpi");
    assert_eq!(token_request(&config("\u{00ff}", "?>", ""), "").authorization, "Basic w786Pz4=");
}

#[test]
fn different_credentials_give_different_headers() {
    let left = token_request(&config("ab", "c", ""), "").authorization;
    let right = token_request(&config("a", "bc", ""), "").authorization;
    assert_ne!(left, right);
}

#[test]
fn statuses_of_success() {
    assert!(!is_success(199));
    assert!(is_success(200));
    assert!(is_success(299));
    assert!(!is_success(300));
    assert!(!is_success(404));
}

#[test]
fn tokens_come_of_a_success() {
    let reply = TokenReply::Answered { status: 200, body: None, tokens: Some(tokens()) };
    let response = token_outcome(reply).unwrap();
    assert_eq!(response.access_token, "access");
    assert_eq!(response.refresh_token.as_deref(), Some("refresh"));
    assert_eq!(response.expires_in, 3600);
    assert_eq!(response.token_type, "Bearer");
}

#[test]
fn an_unanswered_request_is_an_error() {
    let error = token_outcome(TokenReply::Unanswered).unwrap_err();
    assert!(matches!(error, ExchangeError::RequestFailed));
    assert_eq!(error.message(), "Token exchange request failed");
}

#[test]
fn a_refusal_is_an_error() {
    let body = Some("{\"error\":\"invalid_grant\"}".to_string());
    let error = token_outcome(TokenReply::Answered { status: 400, body, tokens: Some(tokens()) }).unwrap_err();
    assert_eq!(error.message(), "Spotify token exchange error: {\"error\":\"invalid_grant\"}");
    let error = token_outcome(TokenReply::Answered { status: 500, body: None, tokens: None }).unwrap_err();
    assert!(matches!(error, ExchangeError::Refused(_)));
    assert_eq!(error.message(), "Spotify token exchange error: ");
}

#[test]
fn an_unreadable_answer_is_an_error() {
    let error = token_outcome(TokenReply::Answered { status: 200, body: None, tokens: None }).unwrap_err();
    assert!(matches!(error, ExchangeError::Unreadable));
    assert_eq!(error.message(), "Failed to parse token response");
}

#[test]
fn a_profile_is_shown_by_its_name() {
    let profile = Profile { display_name: Some("Ada".to_string()), id: "ada1".to_string() };
    assert_eq!(profile_outcome(ProfileReply::Found(profile)), Ok("Ada".to_string()));
    let profile = Profile { display_name: None, id: "ada1".to_string() };
    assert_eq!(profile_outcome(ProfileReply::Found(profile)), Ok("ada1".to_string()));
}

#[test]
fn a_profile_can_be_missing() {
    assert_eq!(profile_outcome(ProfileReply::Unanswered), Err(ProfileError::RequestFailed));
    assert_eq!(profile_outcome(ProfileReply::Unreadable), Err(ProfileError::Unreadable));
    assert_eq!(ProfileError::RequestFailed.message(), "Profile request failed");
    assert_eq!(ProfileError::Unreadable.message(), "Failed to parse profile");
}
