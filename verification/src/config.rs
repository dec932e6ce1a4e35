//! The settings that the service needs at start-up.

use vstd::prelude::*;
use crate::error::ConfigError;

verus! {

/// The name of the setting that holds the connection string of the store.
pub const DATABASE_URL: &'static str = "DATABASE_URL";

/// The name of the setting that holds the log verbosity.
pub const LOG_LEVEL: &'static str = "LOG_LEVEL";

/// What is said when the connection string is missing.
pub const DATABASE_URL_MISSING: &'static str = "DATABASE_URL must be set in .env";

/// What is said when the log verbosity is missing.
pub const LOG_LEVEL_MISSING: &'static str = "LOG_LEVEL must be set in .env";

/// The settings of one run, built once at start-up and handed to whoever
/// needs them.
#[derive(Clone, Debug, PartialEq, Eq)]
pub struct Config {
    pub database_url: String,
    pub log_level: String,
}

impl Config {
    /// What `new` answers for the two settings as they were found.
    pub open spec fn of_settings(database_url: Option<String>, log_level: Option<String>) -> Result<
        Config,
        ConfigError,
    > {
        match database_url {
            None => Err(ConfigError::MissingDatabaseUrl),
            Some(database_url) => match log_level {
                None => Err(ConfigError::MissingLogLevel),
                Some(log_level) => Ok(Config { database_url, log_level }),
            },
        }
    }

    /// Builds the settings from the two values as they were found. Both are
    /// needed; where both are missing the connection string is named.
    pub fn new(database_url: Option<String>, log_level: Option<String>) -> (config: Result<
        Config,
        ConfigError,
    >)
        ensures
            config == Config::of_settings(database_url, log_level),
    {
        match database_url {
            None => Err(ConfigError::MissingDatabaseUrl),
            Some(database_url) => match log_level {
                None => Err(ConfigError::MissingLogLevel),
                Some(log_level) => Ok(Config { database_url, log_level }),
            },
        }
    }
}

impl ConfigError {
    /// The words that say which setting is missing.
    pub fn message(self) -> (text: String)
        ensures
            text@ == match self {
                ConfigError::MissingDatabaseUrl => DATABASE_URL_MISSING@,
                ConfigError::MissingLogLevel => LOG_LEVEL_MISSING@,
            },
    {
        match self {
            ConfigError::MissingDatabaseUrl => DATABASE_URL_MISSING.to_owned(),
            ConfigError::MissingLogLevel => LOG_LEVEL_MISSING.to_owned(),
        }
    }
}

} // verus!
