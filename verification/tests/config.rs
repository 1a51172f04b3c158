use grantbot::config::{parse_port, Config, ConfigError, EnvVar, DEFAULT_PORT};

fn s(x: &str) -> Option<String> {
    Some(x.to_string())
}

#[test]
fn parse_port_agrees_with_std() {
    let cases = [
        "3001", "+80", "0", "0080", "65535", "65536", "", "+", "-", "-1", "-0", " 80", "80 ", "8a",
        "99999999999", "+65535", "++1", "١٢", "00000000000000000000001",
    ];
    for c in cases.iter() {
        assert_eq!(parse_port(c), c.parse::<u16>().ok(), "case {:?}", c);
    }
}

#[test]
fn config_from_lookups_complete() {
    let c = Config::from_lookups(s("gh"), s("venice"), s("oneshot"), s("postgres://x"), s("8080")).unwrap();
    assert_eq!(c.github_webhook_secret, "gh");
    assert_eq!(c.venice_ai_api_key, "venice");
    assert_eq!(c.oneshot_api_key, "oneshot");
    assert_eq!(c.database_url, "postgres://x");
    assert_eq!(c.port, 8080);
}

#[test]
fn config_default_port() {
    let c = Config::from_lookups(s("gh"), s("v"), s("o"), s("d"), None).unwrap();
    assert_eq!(c.port, 3001);
    assert_eq!(DEFAULT_PORT, 3001);
}

#[test]
fn config_missing_variables_in_order() {
    let r = Config::from_lookups(None, None, s("o"), s("d"), s("x"));
    assert!(matches!(r, Err(ConfigError::Missing(EnvVar::GithubWebhookSecret))));
    let r = Config::from_lookups(s("g"), None, None, s("d"), None);
    assert!(matches!(r, Err(ConfigError::Missing(EnvVar::VeniceAiApiKey))));
    let r = Config::from_lookups(s("g"), s("v"), None, None, None);
    assert!(matches!(r, Err(ConfigError::Missing(EnvVar::OneshotApiKey))));
    let r = Config::from_lookups(s("g"), s("v"), s("o"), None, s("bad"));
    assert!(matches!(r, Err(ConfigError::Missing(EnvVar::DatabaseUrl))));
}

#[test]
fn config_invalid_port() {
    let r = Config::from_lookups(s("g"), s("v"), s("o"), s("d"), s("70000"));
    assert!(matches!(r, Err(ConfigError::InvalidPort)));
    let r = Config::from_lookups(s("g"), s("v"), s("o"), s("d"), s(""));
    assert!(matches!(r, Err(ConfigError::InvalidPort)));
}

#[test]
fn env_var_names() {
    assert_eq!(EnvVar::GithubWebhookSecret.name(), "GITHUB_WEBHOOK_SECRET");
    assert_eq!(EnvVar::VeniceAiApiKey.name(), "VENICE_AI_API_KEY");
    assert_eq!(EnvVar::OneshotApiKey.name(), "ONESHOT_API_KEY");
    assert_eq!(EnvVar::DatabaseUrl.name(), "DATABASE_URL");
}
