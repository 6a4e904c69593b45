use discord_spotify_bot::config::{Config, ConfigError, EnvVars};

fn some(text: &str) -> Option<String> {
    Some(text.to_string())
}

fn complete() -> EnvVars {
    EnvVars {
        discord_token: some("token"),
        discord_client_id: some("123456789012345678"),
        discord_guild_id: some("42"),
        spotify_client_id: some("client"),
        spotify_client_secret: some("secret"),
        spotify_redirect_uri: some("http://localhost:8080/auth/callback"),
        auth_server_port: some("8080"),
    }
}

fn missing(env: EnvVars) -> String {
    match Config::from_env(env) {
        Err(ConfigError::Missing(key)) => key,
        other => panic!("{other:?}"),
    }
}

fn not_a_number(env: EnvVars) -> String {
    match Config::from_env(env) {
        Err(ConfigError::NotANumber(key)) => key,
        other => panic!("{other:?}"),
    }
}

#[test]
fn settings_are_read() {
    let config = Config::from_env(complete()).unwrap();
    assert_eq!(config.discord_token, "token");
    assert_eq!(config.discord_client_id, 123456789012345678);
    assert_eq!(config.discord_guild_id, 42);
    assert_eq!(config.spotify_client_id, "client");
    assert_eq!(config.spotify_client_secret, "secret");
    assert_eq!(config.spotify_redirect_uri, "http://localhost:8080/auth/callback");
    assert_eq!(config.auth_server_port, 8080);
}

#[test]
fn the_port_has_a_default() {
    let config = Config::from_env(EnvVars { auth_server_port: None, ..complete() }).unwrap();
    assert_eq!(config.auth_server_port, 3000);
}

#[test]
fn every_other_variable_is_required() {
    assert_eq!(missing(EnvVars { discord_token: None, ..complete() }), "DISCORD_TOKEN");
    assert_eq!(missing(EnvVars { discord_client_id: None, ..complete() }), "DISCORD_CLIENT_ID");
    assert_eq!(missing(EnvVars { discord_guild_id: None, ..complete() }), "DISCORD_GUILD_ID");
    assert_eq!(missing(EnvVars { spotify_client_id: None, ..complete() }), "SPOTIFY_CLIENT_ID");
    assert_eq!(missing(EnvVars { spotify_client_secret: None, ..complete() }), "SPOTIFY_CLIENT_SECRET");
    assert_eq!(missing(EnvVars { spotify_redirect_uri: None, ..complete() }), "SPOTIFY_REDIRECT_URI");
}

#[test]
fn numbers_have_to_be_numbers() {
    assert_eq!(not_a_number(EnvVars { discord_client_id: some("me"), ..complete() }), "DISCORD_CLIENT_ID");
    assert_eq!(not_a_number(EnvVars { discord_guild_id: some(""), ..complete() }), "DISCORD_GUILD_ID");
    assert_eq!(not_a_number(EnvVars { auth_server_port: some("65536"), ..complete() }), "AUTH_SERVER_PORT");
    assert_eq!(not_a_number(EnvVars { auth_server_port: some(""), ..complete() }), "AUTH_SERVER_PORT");
}

#[test]
fn the_first_variable_at_fault_is_named() {
    let env = EnvVars { discord_client_id: some("me"), discord_guild_id: None, spotify_client_id: None, ..complete() };
    assert_eq!(not_a_number(env), "DISCORD_CLIENT_ID");
    let env = EnvVars { spotify_redirect_uri: None, auth_server_port: some("x"), ..complete() };
    assert_eq!(missing(env), "SPOTIFY_REDIRECT_URI");
}

#[test]
fn errors_are_reported_in_words() {
    let error = Config::from_env(EnvVars { discord_token: None, ..complete() }).unwrap_err();
    assert_eq!(error.message(), "Missing required env var: DISCORD_TOKEN");
    let error = Config::from_env(EnvVars { auth_server_port: some("x"), ..complete() }).unwrap_err();
    assert_eq!(error.message(), "AUTH_SERVER_PORT must be a number");
}
