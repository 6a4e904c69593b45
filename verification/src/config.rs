//! The settings of the bot, read from environment variables.

use vstd::prelude::*;
use vstd::string::*;

use crate::text::{
    decimal, law_numeral_round_trip, law_stripping_undoes_prepending, numeral_value, parse_numeral, stripped, text_of,
};

verus! {

/// The settings of the bot.
#[derive(Debug, Clone)]
pub struct Config {
    pub discord_token: String,
    pub discord_client_id: u64,
    pub discord_guild_id: u64,
    pub spotify_client_id: String,
    pub spotify_client_secret: String,
    pub spotify_redirect_uri: String,
    pub auth_server_port: u16,
}

/// What `Config` holds.
pub struct ConfigView {
    pub discord_token: Seq<char>,
    pub discord_client_id: nat,
    pub discord_guild_id: nat,
    pub spotify_client_id: Seq<char>,
    pub spotify_client_secret: Seq<char>,
    pub spotify_redirect_uri: Seq<char>,
    pub auth_server_port: nat,
}

impl View for Config {
    type V = ConfigView;

    open spec fn view(&self) -> ConfigView {
        ConfigView {
            discord_token: self.discord_token@,
            discord_client_id: self.discord_client_id as nat,
            discord_guild_id: self.discord_guild_id as nat,
            spotify_client_id: self.spotify_client_id@,
            spotify_client_secret: self.spotify_client_secret@,
            spotify_redirect_uri: self.spotify_redirect_uri@,
            auth_server_port: self.auth_server_port as nat,
        }
    }
}

/// The environment variables that the settings come from, each `None` where it is
/// not set or is not Unicode.
pub struct EnvVars {
    pub discord_token: Option<String>,
    pub discord_client_id: Option<String>,
    pub discord_guild_id: Option<String>,
    pub spotify_client_id: Option<String>,
    pub spotify_client_secret: Option<String>,
    pub spotify_redirect_uri: Option<String>,
    pub auth_server_port: Option<String>,
}

/// Why the settings cannot be read, with the name of the variable at fault.
#[derive(Debug)]
pub enum ConfigError {
    Missing(String),
    NotANumber(String),
}

/// What `ConfigError` holds.
pub enum ConfigErrorView {
    Missing(Seq<char>),
    NotANumber(Seq<char>),
}

impl View for ConfigError {
    type V = ConfigErrorView;

    open spec fn view(&self) -> ConfigErrorView {
        match self {
            ConfigError::Missing(key) => ConfigErrorView::Missing(key@),
            ConfigError::NotANumber(key) => ConfigErrorView::NotANumber(key@),
        }
    }
}

/// The port of the web server where none is set.
pub const DEFAULT_PORT: &'static str = "3000";

/// The value of a variable that has to be set.
pub open spec fn required_text(key: Seq<char>, value: Option<String>) -> Result<Seq<char>, ConfigErrorView> {
    match value {
        Some(value) => Ok(value@),
        None => Err(ConfigErrorView::Missing(key)),
    }
}

/// The number that a variable gives.
pub open spec fn number_in(key: Seq<char>, value: Seq<char>, limit: nat) -> Result<nat, ConfigErrorView> {
    match numeral_value(value, limit) {
        Some(number) => Ok(number),
        None => Err(ConfigErrorView::NotANumber(key)),
    }
}

/// The number that a variable gives that has to be set.
pub open spec fn required_number(
    key: Seq<char>,
    value: Option<String>,
    limit: nat,
) -> Result<nat, ConfigErrorView> {
    match required_text(key, value) {
        Ok(value) => number_in(key, value, limit),
        Err(error) => Err(error),
    }
}

/// The number of the port: the one that is set, or the default one.
pub open spec fn port_number(value: Option<String>) -> Result<nat, ConfigErrorView> {
    number_in(
        "AUTH_SERVER_PORT"@,
        match value {
            Some(value) => value@,
            None => DEFAULT_PORT@,
        },
        u16::MAX as nat,
    )
}

/// The first error among the variables, in the order in which they are read.
pub open spec fn first_error(env: EnvVars) -> Option<ConfigErrorView> {
    if let Err(error) = required_text("DISCORD_TOKEN"@, env.discord_token) {
        Some(error)
    } else if let Err(error) = required_number(
        "DISCORD_CLIENT_ID"@,
        env.discord_client_id,
        u64::MAX as nat,
    ) {
        Some(error)
    } else if let Err(error) = required_number("DISCORD_GUILD_ID"@, env.discord_guild_id, u64::MAX as nat) {
        Some(error)
    } else if let Err(error) = required_text("SPOTIFY_CLIENT_ID"@, env.spotify_client_id) {
        Some(error)
    } else if let Err(error) = required_text("SPOTIFY_CLIENT_SECRET"@, env.spotify_client_secret) {
        Some(error)
    } else if let Err(error) = required_text("SPOTIFY_REDIRECT_URI"@, env.spotify_redirect_uri) {
        Some(error)
    } else if let Err(error) = port_number(env.auth_server_port) {
        Some(error)
    } else {
        None
    }
}

/// The settings that the variables give where none of them is at fault.
pub open spec fn settings(env: EnvVars) -> ConfigView {
    ConfigView {
        discord_token: env.discord_token->0@,
        discord_client_id: required_number("DISCORD_CLIENT_ID"@, env.discord_client_id, u64::MAX as nat)->Ok_0,
        discord_guild_id: required_number("DISCORD_GUILD_ID"@, env.discord_guild_id, u64::MAX as nat)->Ok_0,
        spotify_client_id: env.spotify_client_id->0@,
        spotify_client_secret: env.spotify_client_secret->0@,
        spotify_redirect_uri: env.spotify_redirect_uri->0@,
        auth_server_port: port_number(env.auth_server_port)->Ok_0,
    }
}

/// The value of a variable that has to be set.
fn required(key: &str, value: Option<String>) -> (result: Result<String, ConfigError>)
    ensures
        match result {
            Ok(text) => required_text(key@, value) == Ok::<_, ConfigErrorView>(text@),
            Err(error) => required_text(key@, value) == Err::<Seq<char>, _>(error@),
        },
{
    match value {
        Some(value) => Ok(value),
        None => Err(ConfigError::Missing(key.to_owned())),
    }
}

/// The number that a variable gives.
fn number(key: &str, value: &str, limit: u64) -> (result: Result<u64, ConfigError>)
    ensures
        match result {
            Ok(number) => number <= limit && number_in(key@, value@, limit as nat) == Ok::<_, ConfigErrorView>(
                number as nat,
            ),
            Err(error) => number_in(key@, value@, limit as nat) == Err::<nat, _>(error@),
        },
{
    match parse_numeral(value, limit) {
        Some(number) => Ok(number),
        None => Err(ConfigError::NotANumber(key.to_owned())),
    }
}

impl Config {
    /// Reads the settings. Every variable but the port has to be set, and the two
    /// Discord ids and the port have to be numbers; the first one at fault is named.
    pub fn from_env(env: EnvVars) -> (result: Result<Config, ConfigError>)
        ensures
            match result {
                Ok(config) => first_error(env) is None && config@ == settings(env),
                Err(error) => first_error(env) == Some(error@),
            },
    {
        let discord_token = required("DISCORD_TOKEN", env.discord_token)?;
        let text = required("DISCORD_CLIENT_ID", env.discord_client_id)?;
        let discord_client_id: u64 = number("DISCORD_CLIENT_ID", text.as_str(), u64::MAX)?;
        let text = required("DISCORD_GUILD_ID", env.discord_guild_id)?;
        let discord_guild_id: u64 = number("DISCORD_GUILD_ID", text.as_str(), u64::MAX)?;
        let spotify_client_id = required("SPOTIFY_CLIENT_ID", env.spotify_client_id)?;
        let spotify_client_secret = required("SPOTIFY_CLIENT_SECRET", env.spotify_client_secret)?;
        let spotify_redirect_uri = required("SPOTIFY_REDIRECT_URI", env.spotify_redirect_uri)?;
        let text = match env.auth_server_port {
            Some(text) => text,
            None => DEFAULT_PORT.to_owned(),
        };
        let auth_server_port: u64 = number("AUTH_SERVER_PORT", text.as_str(), u16::MAX as u64)?;
        Ok(
            Config {
                discord_token,
                discord_client_id,
                discord_guild_id,
                spotify_client_id,
                spotify_client_secret,
                spotify_redirect_uri,
                auth_server_port: auth_server_port as u16,
            },
        )
    }
}

impl ConfigErrorView {
    /// The sentence that reports the error.
    pub open spec fn message(self) -> Seq<char> {
        match self {
            ConfigErrorView::Missing(key) => "Missing required env var: "@ + key,
            ConfigErrorView::NotANumber(key) => key + " must be a number"@,
        }
    }
}

impl ConfigError {
    /// The sentence that reports the error.
    pub fn message(&self) -> (message: String)
        ensures
            message@ == self@.message(),
    {
        match self {
            ConfigError::Missing(key) => "Missing required env var: ".to_owned().concat(key.as_str()),
            ConfigError::NotANumber(key) => key.clone().concat(" must be a number"),
        }
    }
}

/// Every variable but the port has to be set: where one is missing, there are no settings.
pub proof fn law_every_variable_but_the_port_is_required(env: EnvVars)
    requires
        env.discord_token is None || env.discord_client_id is None || env.discord_guild_id is None
            || env.spotify_client_id is None || env.spotify_client_secret is None || env.spotify_redirect_uri is None,
    ensures
        first_error(env) is Some,
{
}

/// Without a port the server listens on port 3000.
pub proof fn law_port_is_optional(env: EnvVars)
    requires
        env.auth_server_port is None,
    ensures
        first_error(env) != Some(ConfigErrorView::NotANumber("AUTH_SERVER_PORT"@)),
        settings(env).auth_server_port == 3000,
{
    reveal_strlit("3000");
    reveal_strlit("AUTH_SERVER_PORT");
    reveal_strlit("DISCORD_CLIENT_ID");
    reveal_strlit("DISCORD_GUILD_ID");
    assert("AUTH_SERVER_PORT"@[0] != "DISCORD_CLIENT_ID"@[0]);
    assert("AUTH_SERVER_PORT"@[0] != "DISCORD_GUILD_ID"@[0]);
    reveal_with_fuel(decimal, 4);
    assert(decimal(3000) =~= DEFAULT_PORT@);
    law_numeral_round_trip(3000, u16::MAX as nat);
}

/// Settings that are written into the variables are read back, every number in base ten.
pub proof fn law_settings_read_back(env: EnvVars, config: ConfigView)
    requires
        config.discord_client_id <= u64::MAX,
        config.discord_guild_id <= u64::MAX,
        config.auth_server_port <= u16::MAX,
        text_of(env.discord_token) == Some(config.discord_token),
        text_of(env.discord_client_id) == Some(decimal(config.discord_client_id)),
        text_of(env.discord_guild_id) == Some(decimal(config.discord_guild_id)),
        text_of(env.spotify_client_id) == Some(config.spotify_client_id),
        text_of(env.spotify_client_secret) == Some(config.spotify_client_secret),
        text_of(env.spotify_redirect_uri) == Some(config.spotify_redirect_uri),
        text_of(env.auth_server_port) == Some(decimal(config.auth_server_port)),
    ensures
        first_error(env) is None,
        settings(env) == config,
{
    law_numeral_round_trip(config.discord_client_id, u64::MAX as nat);
    law_numeral_round_trip(config.discord_guild_id, u64::MAX as nat);
    law_numeral_round_trip(config.auth_server_port, u16::MAX as nat);
}

/// The settings hold what the fields are, each in its own place.
pub proof fn law_settings_are_whole(config: Config)
    ensures
        config@.discord_token == config.discord_token@,
        config@.discord_client_id == config.discord_client_id,
        config@.discord_guild_id == config.discord_guild_id,
        config@.spotify_client_id == config.spotify_client_id@,
        config@.spotify_client_secret == config.spotify_client_secret@,
        config@.spotify_redirect_uri == config.spotify_redirect_uri@,
        config@.auth_server_port == config.auth_server_port,
{
}

/// There are settings exactly where every variable but the port is set, and where the two
/// ids, and the port if it is set, are numerals that fit. The texts are then taken whole,
/// and the numbers are those that the numerals stand for.
pub proof fn law_settings_are_what_the_variables_say(env: EnvVars)
    ensures
        first_error(env) is None <==> {
            &&& env.discord_token is Some
            &&& env.discord_client_id is Some
            &&& numeral_value(env.discord_client_id->0@, u64::MAX as nat) is Some
            &&& env.discord_guild_id is Some
            &&& numeral_value(env.discord_guild_id->0@, u64::MAX as nat) is Some
            &&& env.spotify_client_id is Some
            &&& env.spotify_client_secret is Some
            &&& env.spotify_redirect_uri is Some
            &&& env.auth_server_port is Some ==> numeral_value(env.auth_server_port->0@, u16::MAX as nat) is Some
        },
        first_error(env) is None ==> {
            &&& settings(env).discord_token == env.discord_token->0@
            &&& numeral_value(env.discord_client_id->0@, u64::MAX as nat) == Some(settings(env).discord_client_id)
            &&& numeral_value(env.discord_guild_id->0@, u64::MAX as nat) == Some(settings(env).discord_guild_id)
            &&& settings(env).spotify_client_id == env.spotify_client_id->0@
            &&& settings(env).spotify_client_secret == env.spotify_client_secret->0@
            &&& settings(env).spotify_redirect_uri == env.spotify_redirect_uri->0@
            &&& env.auth_server_port is Some ==> numeral_value(env.auth_server_port->0@, u16::MAX as nat) == Some(
                settings(env).auth_server_port,
            )
        },
{
    if env.auth_server_port is None {
        law_port_is_optional(env);
        lemma_default_port();
    }
}

/// The default port is a numeral that fits.
proof fn lemma_default_port()
    ensures
        numeral_value(DEFAULT_PORT@, u16::MAX as nat) == Some(3000nat),
{
    reveal_strlit("3000");
    reveal_with_fuel(decimal, 4);
    assert(decimal(3000) =~= DEFAULT_PORT@);
    law_numeral_round_trip(3000, u16::MAX as nat);
}

/// The variable that is named is the first one at fault, and it is named as missing where it
/// is missing and as no number where it is none.
pub proof fn law_first_fault_is_named(env: EnvVars)
    ensures
        ({
            let token = env.discord_token is Some;
            let client = token && env.discord_client_id is Some && numeral_value(
                env.discord_client_id->0@,
                u64::MAX as nat,
            ) is Some;
            let guild = client && env.discord_guild_id is Some && numeral_value(
                env.discord_guild_id->0@,
                u64::MAX as nat,
            ) is Some;
            let id = guild && env.spotify_client_id is Some;
            let secret = id && env.spotify_client_secret is Some;
            let uri = secret && env.spotify_redirect_uri is Some;
            &&& !token ==> first_error(env) == Some(ConfigErrorView::Missing("DISCORD_TOKEN"@))
            &&& token && env.discord_client_id is None ==> first_error(env) == Some(
                ConfigErrorView::Missing("DISCORD_CLIENT_ID"@),
            )
            &&& token && env.discord_client_id is Some && !client ==> first_error(env) == Some(
                ConfigErrorView::NotANumber("DISCORD_CLIENT_ID"@),
            )
            &&& client && env.discord_guild_id is None ==> first_error(env) == Some(
                ConfigErrorView::Missing("DISCORD_GUILD_ID"@),
            )
            &&& client && env.discord_guild_id is Some && !guild ==> first_error(env) == Some(
                ConfigErrorView::NotANumber("DISCORD_GUILD_ID"@),
            )
            &&& guild && !id ==> first_error(env) == Some(ConfigErrorView::Missing("SPOTIFY_CLIENT_ID"@))
            &&& id && !secret ==> first_error(env) == Some(ConfigErrorView::Missing("SPOTIFY_CLIENT_SECRET"@))
            &&& secret && !uri ==> first_error(env) == Some(ConfigErrorView::Missing("SPOTIFY_REDIRECT_URI"@))
            &&& uri && first_error(env) is Some ==> first_error(env) == Some(
                ConfigErrorView::NotANumber("AUTH_SERVER_PORT"@),
            )
        }),
{
}

/// The sentence that reports a fault names the variable, whole.
pub proof fn law_fault_is_reported_by_name(key: String)
    ensures
        stripped(ConfigError::Missing(key)@.message(), "Missing required env var: "@) == Some(key@),
        stripped(ConfigError::NotANumber(key)@.message(), key@) == Some(" must be a number"@),
{
    law_stripping_undoes_prepending("Missing required env var: "@, key@);
    law_stripping_undoes_prepending(key@, " must be a number"@);
}

} // verus!
