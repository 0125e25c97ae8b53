use profile_sync::config::{default_database_url, default_host, default_port, parse_port, Config, ConfigError};

fn vars(pairs: &[(&str, &str)]) -> Vec<(String, String)> {
    pairs.iter().map(|(k, v)| (k.to_string(), v.to_string())).collect()
}

#[test]
fn defaults_apply_when_nothing_is_set() {
    let c = Config::load(&vars(&[("PATH", "/bin")])).unwrap();
    assert_eq!(c.port, 3000);
    assert_eq!(c.host, "0.0.0.0");
    assert_eq!(c.database_url, "sqlite:./dev.db");
    assert_eq!(default_port(), 3000);
    assert_eq!(default_host(), "0.0.0.0");
    assert_eq!(default_database_url(), "sqlite:./dev.db");
}

#[test]
fn variables_override_defaults() {
    let c = Config::load(&vars(&[
        ("APP__PORT", "8080"),
        ("APP__HOST", "127.0.0.1"),
        ("APP__DATABASE_URL", "sqlite::memory:"),
        ("APP__PORT", "9090"),
    ]))
    .unwrap();
    assert_eq!(c.port, 9090);
    assert_eq!(c.host, "127.0.0.1");
    assert_eq!(c.database_url, "sqlite::memory:");
}

#[test]
fn port_with_plus_sign_is_read() {
    let c = Config::load(&vars(&[("APP__PORT", "+80")])).unwrap();
    assert_eq!(c.port, 80);
    assert_eq!(c.host, "0.0.0.0");
    assert_eq!(c.database_url, "sqlite:./dev.db");
    assert_eq!(Config::load(&vars(&[("APP_PORT", "80")])).unwrap().port, 3000);
}

#[test]
fn bad_port_is_refused() {
    assert_eq!(Config::load(&vars(&[("APP__PORT", "80a")])).unwrap_err(), ConfigError::InvalidPort);
    assert_eq!(Config::load(&vars(&[("APP__PORT", "65536")])).unwrap_err(), ConfigError::InvalidPort);
    assert_eq!(Config::load(&vars(&[("APP__PORT", "")])).unwrap_err(), ConfigError::InvalidPort);
}

#[test]
fn port_parsing() {
    assert_eq!(parse_port("0"), Some(0));
    assert_eq!(parse_port("65535"), Some(65535));
    assert_eq!(parse_port("007"), Some(7));
    assert_eq!(parse_port("99999999999"), None);
    assert_eq!(parse_port("-1"), None);
    assert_eq!(parse_port("+80"), Some(80));
    assert_eq!(parse_port("+"), None);
    assert_eq!(parse_port("++80"), None);
    assert_eq!(parse_port("+65536"), None);
}
