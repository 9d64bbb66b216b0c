//! The typed settings structure the loader fills: every field is
//! optional, so a settings value with nothing configured is always
//! constructible.

use vstd::prelude::*;

verus! {

/// Database configuration.
#[derive(Debug, Clone)]
pub struct Database {
    /// The URL of the database.
    pub url: Option<String>,
}

/// Logging configuration.
#[derive(Debug, Clone)]
pub struct Logging {
    /// The log level for logging.
    pub log_level: Option<String>,
}

/// Tracing configuration.
#[derive(Debug, Clone)]
pub struct Tracing {
    /// The endpoint for OpenTelemetry tracing.
    pub otlp_endpoint: Option<String>,
}

/// General configuration information: the synthetic fields the loader
/// populates to record how a settings value was loaded.
#[derive(Debug, Clone)]
pub struct ConfigInfo {
    /// The location of the configuration file.
    pub location: Option<String>,
    /// The prefix for environment variables.
    pub env_prefix: Option<String>,
}

/// Default settings struct that services can use or extend.
#[derive(Debug, Clone)]
pub struct Settings {
    pub config: ConfigInfo,
    pub database: Database,
    pub logging: Logging,
}

impl Default for Database {
    /// A database configuration with nothing configured.
    fn default() -> (r: Self)
        ensures
            r.url is None,
    {
        Database { url: None }
    }
}

impl Default for Logging {
    /// A logging configuration with nothing configured.
    fn default() -> (r: Self)
        ensures
            r.log_level is None,
    {
        Logging { log_level: None }
    }
}

impl Default for Tracing {
    /// A tracing configuration with nothing configured.
    fn default() -> (r: Self)
        ensures
            r.otlp_endpoint is None,
    {
        Tracing { otlp_endpoint: None }
    }
}

impl Default for ConfigInfo {
    /// Configuration information with nothing recorded.
    fn default() -> (r: Self)
        ensures
            r.location is None,
            r.env_prefix is None,
    {
        ConfigInfo { location: None, env_prefix: None }
    }
}

impl Default for Settings {
    /// A settings value with zero configured fields.
    fn default() -> (r: Self)
        ensures
            r.config.location is None,
            r.config.env_prefix is None,
            r.database.url is None,
            r.logging.log_level is None,
    {
        Settings {
            config: ConfigInfo { location: None, env_prefix: None },
            database: Database { url: None },
            logging: Logging { log_level: None },
        }
    }
}

} // verus!
