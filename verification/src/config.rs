//! Process configuration as one struct built once at start and passed by
//! reference into the auth service and token codec — no ambient lookup
//! inside request handling. Reading the environment is the caller's job;
//! the defaulting and parsing rules are verified here.

use vstd::prelude::*;
use crate::decimal;

verus! {

/// Where the server listens.
#[derive(Clone, Debug)]
pub struct ServerConfig {
    pub host: String,
    pub port: u16,
}

/// How the store is reached.
#[derive(Clone, Debug)]
pub struct DatabaseConfig {
    pub url: String,
    pub max_connections: u32,
}

/// The server-held signing secret and the token time-to-live in seconds.
#[derive(Clone, Debug)]
pub struct AuthConfig {
    pub jwt_secret: String,
    pub jwt_expiration: i64,
}

/// The whole process configuration.
#[derive(Clone, Debug)]
pub struct Config {
    pub server: ServerConfig,
    pub database: DatabaseConfig,
    pub auth: AuthConfig,
}

/// What can be wrong with the environment the process was started in.
#[derive(Clone, Copy, Debug, PartialEq, Eq, Structural)]
pub enum ConfigError {
    /// The server port was given but is not a decimal port number.
    InvalidServerPort,
    /// No database URL was given, and there is no default.
    MissingDatabaseUrl,
    /// No signing secret was given, and there is no default.
    MissingJwtSecret,
}

impl Config {
    /// Builds the configuration from the raw environment values, each
    /// `None` when unset. The host defaults to "0.0.0.0", the port to
    /// 8080, the connection cap to 10 and the token time-to-live to one
    /// day (86400 seconds); an unparsable port is an error, an unparsable
    /// cap or time-to-live falls back to its default; the database URL and
    /// the signing secret are required.
    pub fn from_values(
        server_host: Option<String>,
        server_port: Option<String>,
        database_url: Option<String>,
        database_max_connections: Option<String>,
        jwt_secret: Option<String>,
        jwt_expiration: Option<String>,
    ) -> (r: Result<Config, ConfigError>)
        ensures
            r == Err::<Config, ConfigError>(ConfigError::InvalidServerPort) <==> (server_port
                matches Some(p) && !(decimal::spec_parse_uint(p@) matches Some(v) && 0 <= v
                <= u16::MAX)),
            r is Ok <==> (database_url is Some && jwt_secret is Some && (server_port matches Some(
                p,
            ) ==> (decimal::spec_parse_uint(p@) matches Some(v) && 0 <= v <= u16::MAX))),
            !(r == Err::<Config, ConfigError>(ConfigError::InvalidServerPort)) && database_url
                is None ==> r == Err::<Config, ConfigError>(ConfigError::MissingDatabaseUrl),
            !(r == Err::<Config, ConfigError>(ConfigError::InvalidServerPort)) && database_url
                is Some && jwt_secret is None ==> r == Err::<Config, ConfigError>(
                ConfigError::MissingJwtSecret,
            ),
            r matches Ok(c) ==> {
                &&& database_url is Some
                &&& jwt_secret is Some
                &&& c.server.host@ == match server_host {
                    Some(h) => h@,
                    None => "0.0.0.0"@,
                }
                &&& c.server.port == match server_port {
                    Some(p) => decimal::spec_parse_uint(p@)->Some_0 as u16,
                    None => 8080u16,
                }
                &&& c.database.url == database_url->Some_0
                &&& c.database.max_connections == match database_max_connections {
                    Some(s) => if decimal::spec_parse_uint(s@) is Some && 0 <= decimal::spec_parse_uint(s@)->Some_0 <= u32::MAX {
                        decimal::spec_parse_uint(s@)->Some_0 as u32
                    } else {
                        10u32
                    },
                    None => 10u32,
                }
                &&& c.auth.jwt_secret == jwt_secret->Some_0
                &&& c.auth.jwt_expiration == match jwt_expiration {
                    Some(s) => if decimal::spec_parse_int(s@) is Some && i64::MIN <= decimal::spec_parse_int(s@)->Some_0 <= i64::MAX {
                        decimal::spec_parse_int(s@)->Some_0 as i64
                    } else {
                        86400i64
                    },
                    None => 86400i64,
                }
            },
    {
        let host: String = match server_host {
            Some(h) => h,
            None => String::from_str("0.0.0.0"),
        };
        let port: u16 = match server_port {
            Some(p) => {
                match decimal::parse_u16(p.as_str()) {
                    Some(v) => v,
                    None => {
                        return Err(ConfigError::InvalidServerPort);
                    },
                }
            },
            None => 8080,
        };
        let url: String = match database_url {
            Some(u) => u,
            None => {
                return Err(ConfigError::MissingDatabaseUrl);
            },
        };
        let max_connections: u32 = match database_max_connections {
            Some(s) => {
                match decimal::parse_u32(s.as_str()) {
                    Some(v) => v,
                    None => 10,
                }
            },
            None => 10,
        };
        let secret: String = match jwt_secret {
            Some(s) => s,
            None => {
                return Err(ConfigError::MissingJwtSecret);
            },
        };
        let expiration: i64 = match jwt_expiration {
            Some(s) => {
                match decimal::parse_i64(s.as_str()) {
                    Some(v) => v,
                    None => 86400,
                }
            },
            None => 86400,
        };
        Ok(
            Config {
                server: ServerConfig { host, port },
                database: DatabaseConfig { url, max_connections },
                auth: AuthConfig { jwt_secret: secret, jwt_expiration: expiration },
            },
        )
    }
}

} // verus!
