//! The service's configuration, read from the values of its environment
//! variables.

use vstd::prelude::*;
use vstd::string::*;
use crate::text::{parse_u16, parse_unsigned};

verus! {

/// The service's settings.
pub struct Config {
    pub host: String,
    pub port: u16,
    pub database_url: String,
    pub log_level: String,
    pub app_env: String,
}

/// Why the configuration could not be read.
#[derive(PartialEq, Eq, Structural, Clone, Copy, Debug)]
pub enum ConfigError {
    /// `APP_PORT` is set but is not a `u16`.
    InvalidPort,
    /// `DATABASE_URL` is not set.
    MissingDatabaseUrl,
}

impl ConfigError {
    /// The message that the error is reported with.
    pub fn message(&self) -> (s: String)
        ensures
            s@ == match self {
                ConfigError::InvalidPort => "APP_PORT must be a valid port number"@,
                ConfigError::MissingDatabaseUrl => "DATABASE_URL must be set"@,
            },
    {
        match self {
            ConfigError::InvalidPort => String::from_str("APP_PORT must be a valid port number"),
            ConfigError::MissingDatabaseUrl => String::from_str("DATABASE_URL must be set"),
        }
    }
}

/// A variable's value, or `default` when it is not set.
pub open spec fn or_default(v: Option<String>, default: Seq<char>) -> Seq<char> {
    match v {
        Some(s) => s@,
        None => default,
    }
}

fn value_or(v: Option<String>, default: &str) -> (s: String)
    ensures
        s@ == or_default(v, default@),
{
    match v {
        Some(s) => s,
        None => String::from_str(default),
    }
}

impl Config {
    /// Builds the configuration from the values of `APP_HOST`, `APP_PORT`,
    /// `DATABASE_URL`, `LOG_LEVEL` and `APP_ENV` (`None` where a variable is
    /// not set). Unset variables take the defaults `0.0.0.0`, `8080`, `info`
    /// and `development`; `DATABASE_URL` has none. The port is checked
    /// before the database URL.
    pub fn from_vars(
        host: Option<String>,
        port: Option<String>,
        database_url: Option<String>,
        log_level: Option<String>,
        app_env: Option<String>,
    ) -> (r: Result<Config, ConfigError>)
        ensures
            parse_unsigned(or_default(port, "8080"@), u16::MAX as nat) is None ==> r == Err::<
                Config,
                ConfigError,
            >(ConfigError::InvalidPort),
            parse_unsigned(or_default(port, "8080"@), u16::MAX as nat) is Some
                && database_url is None ==> r == Err::<Config, ConfigError>(
                ConfigError::MissingDatabaseUrl,
            ),
            parse_unsigned(or_default(port, "8080"@), u16::MAX as nat) is Some
                && database_url is Some ==> (r matches Ok(c) && {
                &&& c.host@ == or_default(host, "0.0.0.0"@)
                &&& Some(c.port as nat) == parse_unsigned(or_default(port, "8080"@), u16::MAX as nat)
                &&& c.database_url == database_url.unwrap()
                &&& c.log_level@ == or_default(log_level, "info"@)
                &&& c.app_env@ == or_default(app_env, "development"@)
            }),
    {
        let host = value_or(host, "0.0.0.0");
        let port_text = value_or(port, "8080");
        let port = match parse_u16(port_text.as_str()) {
            Some(p) => p,
            None => return Err(ConfigError::InvalidPort),
        };
        let database_url = match database_url {
            Some(u) => u,
            None => return Err(ConfigError::MissingDatabaseUrl),
        };
        let log_level = value_or(log_level, "info");
        let app_env = value_or(app_env, "development");
        Ok(Config { host, port, database_url, log_level, app_env })
    }
}

} // verus!
