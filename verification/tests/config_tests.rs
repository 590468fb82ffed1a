//! Configuration defaulting and parsing rules.

use catalog_core::config::{Config, ConfigError};

fn s(v: &str) -> Option<String> {
    Some(v.to_string())
}

#[test]
fn full_environment() {
    let config = Config::from_values(
        s("127.0.0.1"),
        s("9000"),
        s("postgres://db/catalog"),
        s("25"),
        s("secret-key"),
        s("7200"),
    )
    .unwrap();
    assert_eq!(config.server.host, "127.0.0.1");
    assert_eq!(config.server.port, 9000);
    assert_eq!(config.database.url, "postgres://db/catalog");
    assert_eq!(config.database.max_connections, 25);
    assert_eq!(config.auth.jwt_secret, "secret-key");
    assert_eq!(config.auth.jwt_expiration, 7200);
}

#[test]
fn defaults_fill_optional_values() {
    let config = Config::from_values(
        None,
        None,
        s("postgres://db/catalog"),
        None,
        s("secret-key"),
        None,
    )
    .unwrap();
    assert_eq!(config.server.host, "0.0.0.0");
    assert_eq!(config.server.port, 8080);
    assert_eq!(config.database.max_connections, 10);
    assert_eq!(config.auth.jwt_expiration, 86_400);
}

#[test]
fn unparsable_ttl_falls_back_to_one_day() {
    let config = Config::from_values(
        None,
        None,
        s("postgres://db/catalog"),
        None,
        s("secret-key"),
        s("24h"),
    )
    .unwrap();
    assert_eq!(config.auth.jwt_expiration, 86_400);
}

#[test]
fn unparsable_connection_cap_falls_back_to_ten() {
    let config = Config::from_values(
        None,
        None,
        s("postgres://db/catalog"),
        s("many"),
        s("secret-key"),
        None,
    )
    .unwrap();
    assert_eq!(config.database.max_connections, 10);
}

#[test]
fn bad_port_is_an_error() {
    let err = Config::from_values(
        None,
        s("eighty"),
        s("postgres://db/catalog"),
        None,
        s("secret-key"),
        None,
    )
    .unwrap_err();
    assert_eq!(err, ConfigError::InvalidServerPort);
    let err = Config::from_values(
        None,
        s("70000"),
        s("postgres://db/catalog"),
        None,
        s("secret-key"),
        None,
    )
    .unwrap_err();
    assert_eq!(err, ConfigError::InvalidServerPort);
}

#[test]
fn missing_required_values_are_errors() {
    let err = Config::from_values(None, None, None, None, s("secret-key"), None).unwrap_err();
    assert_eq!(err, ConfigError::MissingDatabaseUrl);
    let err =
        Config::from_values(None, None, s("postgres://db/catalog"), None, None, None).unwrap_err();
    assert_eq!(err, ConfigError::MissingJwtSecret);
}
