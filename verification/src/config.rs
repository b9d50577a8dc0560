//! The settings of the server, resolved from what the environment holds.

use vstd::prelude::*;

verus! {

/// The number that `str::parse::<u16>` reads from a text, if it reads one.
pub uninterp spec fn parsed_port(text: Seq<char>) -> Option<u16>;

/// The host that the server binds to where none is set.
pub const DEFAULT_HOST: &'static str = "127.0.0.1";

/// The port that the server binds to where none is set.
pub const DEFAULT_PORT: u16 = 3000;

/// The log filter where none is set.
pub const DEFAULT_LOG_FILTER: &'static str = "info";

/// What the operator is told where the address of the database is not set.
pub const MISSING_DATABASE_URL: &'static str = "DATABASE_URL must be set";

/// What the operator is told where the port is set to something that is no port.
pub const INVALID_PORT: &'static str = "SERVER_PORT must be a valid u16";

/// The settings of the server.
#[derive(Debug, PartialEq, Eq)]
pub struct Config {
    pub database_url: String,
    pub server_host: String,
    pub server_port: u16,
    pub rust_log: String,
}

/// Mathematical value of a [`Config`].
pub struct ConfigView {
    pub database_url: Seq<char>,
    pub server_host: Seq<char>,
    pub server_port: u16,
    pub rust_log: Seq<char>,
}

impl View for Config {
    type V = ConfigView;

    open spec fn view(&self) -> ConfigView {
        ConfigView {
            database_url: self.database_url@,
            server_host: self.server_host@,
            server_port: self.server_port,
            rust_log: self.rust_log@,
        }
    }
}

/// Why the settings could not be resolved.
#[derive(Debug, PartialEq, Eq, Structural, Clone, Copy)]
pub enum ConfigError {
    /// The address of the database is not set.
    MissingDatabaseUrl,
    /// The port is set, but not to a number that a port can be.
    InvalidPort,
}

/// Mathematical value of a text that may be absent.
pub open spec fn optional_text(text: Option<String>) -> Option<Seq<char>> {
    match text {
        Some(value) => Some(value@),
        None => None,
    }
}

/// The text itself, or `fallback` where it is absent.
pub open spec fn text_or(text: Option<Seq<char>>, fallback: Seq<char>) -> Seq<char> {
    match text {
        Some(value) => value,
        None => fallback,
    }
}

/// The port that the settings give: the default where none is set, the number that the
/// text reads as where it reads as one.
pub open spec fn port_of(text: Option<Seq<char>>) -> Option<u16> {
    match text {
        Some(value) => parsed_port(value),
        None => Some(DEFAULT_PORT),
    }
}

/// The settings that the given values make, `port` being the port that the settings
/// give, if they give one. The address of the database must be set; host and log filter
/// fall back to their defaults. A missing address is reported before a missing port.
pub open spec fn assembled(
    database_url: Option<Seq<char>>,
    server_host: Option<Seq<char>>,
    port: Option<u16>,
    rust_log: Option<Seq<char>>,
) -> Result<ConfigView, ConfigError> {
    match database_url {
        None => Err(ConfigError::MissingDatabaseUrl),
        Some(url) => match port {
            None => Err(ConfigError::InvalidPort),
            Some(port) => Ok(
                ConfigView {
                    database_url: url,
                    server_host: text_or(server_host, DEFAULT_HOST@),
                    server_port: port,
                    rust_log: text_or(rust_log, DEFAULT_LOG_FILTER@),
                },
            ),
        },
    }
}

/// The settings that the given values resolve to. The address of the database must be
/// set; host, port and log filter fall back to their defaults; a port that is set must
/// read as a port. A missing address is reported before an invalid port.
pub open spec fn resolved(
    database_url: Option<Seq<char>>,
    server_host: Option<Seq<char>>,
    server_port: Option<Seq<char>>,
    rust_log: Option<Seq<char>>,
) -> Result<ConfigView, ConfigError> {
    assembled(database_url, server_host, port_of(server_port), rust_log)
}

/// Mathematical value of the result of resolving the settings.
pub open spec fn config_result_view(result: Result<Config, ConfigError>) -> Result<
    ConfigView,
    ConfigError,
> {
    match result {
        Ok(config) => Ok(config@),
        Err(error) => Err(error),
    }
}

/// `str::parse::<u16>`: the number that the text reads as, or nothing where it does not
/// read as a number that fits.
#[verifier::external_body]
fn parse_port(text: &str) -> (port: Option<u16>)
    ensures
        port == parsed_port(text@),
{
    text.parse::<u16>().ok()
}

impl ConfigError {
    /// What the operator is told about this error.
    pub fn message(&self) -> (text: &'static str)
        ensures
            text@ == match self {
                ConfigError::MissingDatabaseUrl => MISSING_DATABASE_URL@,
                ConfigError::InvalidPort => INVALID_PORT@,
            },
    {
        match self {
            ConfigError::MissingDatabaseUrl => MISSING_DATABASE_URL,
            ConfigError::InvalidPort => INVALID_PORT,
        }
    }
}

impl Config {
    /// Makes the settings from the values that the environment holds for the address of
    /// the database, the host and the log filter, and from the port that it gives, if it
    /// gives one; see [`assembled`].
    pub fn assemble(
        database_url: Option<String>,
        server_host: Option<String>,
        port: Option<u16>,
        rust_log: Option<String>,
    ) -> (result: Result<Config, ConfigError>)
        ensures
            config_result_view(result) == assembled(
                optional_text(database_url),
                optional_text(server_host),
                port,
                optional_text(rust_log),
            ),
    {
        let database_url = match database_url {
            Some(url) => url,
            None => {
                return Err(ConfigError::MissingDatabaseUrl);
            },
        };
        let server_port = match port {
            Some(port) => port,
            None => {
                return Err(ConfigError::InvalidPort);
            },
        };
        let server_host = match server_host {
            Some(host) => host,
            None => String::from_str(DEFAULT_HOST),
        };
        let rust_log = match rust_log {
            Some(filter) => filter,
            None => String::from_str(DEFAULT_LOG_FILTER),
        };
        Ok(Config { database_url, server_host, server_port, rust_log })
    }

    /// Resolves the settings from the values that the environment holds for the address
    /// of the database, the host, the port and the log filter; see [`resolved`].
    pub fn init(
        database_url: Option<String>,
        server_host: Option<String>,
        server_port: Option<String>,
        rust_log: Option<String>,
    ) -> (result: Result<Config, ConfigError>)
        ensures
            config_result_view(result) == resolved(
                optional_text(database_url),
                optional_text(server_host),
                optional_text(server_port),
                optional_text(rust_log),
            ),
    {
        let port = match &server_port {
            Some(text) => parse_port(text.as_str()),
            None => Some(DEFAULT_PORT),
        };
        Self::assemble(database_url, server_host, port, rust_log)
    }
}

} // verus!
