use skeet_longer::config::{
    env_var_or_default, parse_bool_env_or_default, parse_env_or_default, read_switch, Config,
    ConfigError,
};
use skeet_longer::text::parse_unsigned;

fn vars(pairs: &[(&str, &str)]) -> Vec<(String, String)> {
    pairs.iter().map(|(k, v)| (k.to_string(), v.to_string())).collect()
}

#[test]
fn test_invalid_env_var_error() {
    let err = ConfigError::InvalidEnvVar("PORT", "abc".to_string());
    assert!(err.to_string().contains("PORT"));
    assert!(err.to_string().contains("abc"));
}

#[test]
fn config_error_sentence_is_exact() {
    let err = ConfigError::InvalidEnvVar("PORT", "abc".to_string());
    assert_eq!(err.to_string(), "invalid PORT value: abc");
}

#[test]
fn from_env_defaults() {
    let config = Config::from_env(&vars(&[])).unwrap();
    assert_eq!(
        config,
        Config {
            port: 8080,
            log_level: "info".to_string(),
            bluesky_api_url: "https://public.api.bsky.app".to_string(),
            request_timeout_seconds: 10,
            poll_enabled: true,
            poll_initial_interval: 30,
            poll_max_interval: 120,
            poll_disable_after: 1800,
            public_url: "https://sklonger.app".to_string(),
        }
    );
}

#[test]
fn from_env_reads_every_variable() {
    let config = Config::from_env(&vars(&[
        ("PORT", "3000"),
        ("LOG_LEVEL", "debug"),
        ("BLUESKY_API_URL", "http://localhost:1"),
        ("REQUEST_TIMEOUT_SECONDS", "5"),
        ("POLL_ENABLED", "No"),
        ("POLL_INITIAL_INTERVAL_SECONDS", "7"),
        ("POLL_MAX_INTERVAL_SECONDS", "70"),
        ("POLL_DISABLE_AFTER_SECONDS", "700"),
        ("PUBLIC_URL", "https://example.org"),
        ("UNRELATED", "x"),
    ]))
    .unwrap();
    assert_eq!(
        config,
        Config {
            port: 3000,
            log_level: "debug".to_string(),
            bluesky_api_url: "http://localhost:1".to_string(),
            request_timeout_seconds: 5,
            poll_enabled: false,
            poll_initial_interval: 7,
            poll_max_interval: 70,
            poll_disable_after: 700,
            public_url: "https://example.org".to_string(),
        }
    );
}

#[test]
fn from_env_reports_the_first_unreadable_variable() {
    let err = Config::from_env(&vars(&[
        ("POLL_MAX_INTERVAL_SECONDS", "soon"),
        ("REQUEST_TIMEOUT_SECONDS", "-1"),
    ]))
    .unwrap_err();
    assert_eq!(err, ConfigError::InvalidEnvVar("REQUEST_TIMEOUT_SECONDS", "-1".to_string()));
    let err = Config::from_env(&vars(&[("PORT", "65536")])).unwrap_err();
    assert_eq!(err, ConfigError::InvalidEnvVar("PORT", "65536".to_string()));
    let err = Config::from_env(&vars(&[("POLL_ENABLED", "maybe")])).unwrap_err();
    assert_eq!(err, ConfigError::InvalidEnvVar("POLL_ENABLED", "maybe".to_string()));
}

#[test]
fn port_takes_the_whole_range() {
    assert_eq!(Config::from_env(&vars(&[("PORT", "65535")])).unwrap().port, 65535);
    assert_eq!(Config::from_env(&vars(&[("PORT", "0")])).unwrap().port, 0);
    assert_eq!(Config::from_env(&vars(&[("PORT", "+80")])).unwrap().port, 80);
}

#[test]
fn parse_unsigned_agrees_with_the_standard_parser() {
    let samples = [
        "", "+", "-", "0", "00", "007", "+5", "-5", "++5", "5+", " 5", "5 ", "12a", "a12",
        "18446744073709551615", "18446744073709551616", "99999999999999999999", "٣", "1_000",
        "0x10", "+0", "4294967296",
    ];
    for s in samples {
        assert_eq!(parse_unsigned(s, u64::MAX), s.parse::<u64>().ok(), "u64 of {:?}", s);
        assert_eq!(
            parse_unsigned(s, 65535),
            s.parse::<u16>().ok().map(|n| n as u64),
            "u16 of {:?}",
            s
        );
    }
}

#[test]
fn text_variable_or_default() {
    let env = vars(&[("LOG_LEVEL", "warn"), ("LOG_LEVEL", "later")]);
    assert_eq!(env_var_or_default(&env, "LOG_LEVEL", "info"), "warn");
    assert_eq!(env_var_or_default(&env, "OTHER", "info"), "info");
}

#[test]
fn number_variable_or_default() {
    let env = vars(&[("A", "12"), ("B", "x")]);
    assert_eq!(parse_env_or_default(&env, "A", 1, 100), Ok(12));
    assert_eq!(parse_env_or_default(&env, "A", 1, 11), Err(ConfigError::InvalidEnvVar("A", "12".to_string())));
    assert_eq!(parse_env_or_default(&env, "B", 1, 100), Err(ConfigError::InvalidEnvVar("B", "x".to_string())));
    assert_eq!(parse_env_or_default(&env, "C", 1, 100), Ok(1));
}

#[test]
fn switch_variable_in_any_case() {
    for (value, expected) in [
        ("true", true), ("TRUE", true), ("1", true), ("yes", true), ("Yes", true),
        ("false", false), ("False", false), ("0", false), ("no", false), ("NO", false),
    ] {
        let env = vars(&[("S", value)]);
        assert_eq!(parse_bool_env_or_default(&env, "S", !expected), Ok(expected), "{}", value);
    }
    let env = vars(&[("S", "on")]);
    assert_eq!(
        parse_bool_env_or_default(&env, "S", true),
        Err(ConfigError::InvalidEnvVar("S", "on".to_string()))
    );
    assert_eq!(parse_bool_env_or_default(&vars(&[]), "S", true), Ok(true));
    assert_eq!(parse_bool_env_or_default(&vars(&[]), "S", false), Ok(false));
}

#[test]
fn switches_in_lower_case() {
    assert_eq!(read_switch("true"), Some(true));
    assert_eq!(read_switch("1"), Some(true));
    assert_eq!(read_switch("yes"), Some(true));
    assert_eq!(read_switch("false"), Some(false));
    assert_eq!(read_switch("0"), Some(false));
    assert_eq!(read_switch("no"), Some(false));
    assert_eq!(read_switch("True"), None);
    assert_eq!(read_switch(""), None);
    assert_eq!(read_switch("y"), None);
}
