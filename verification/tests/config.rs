use pokedex_rncp_backend::config::{
    access_secret, access_ttl_secs, production_mode, refresh_secret, refresh_ttl_secs, AuthConfig,
    ConfigError, DEFAULT_ACCESS_TTL_SECS, DEFAULT_REFRESH_TTL_SECS, RESET_TTL_SECS,
};

fn some(s: &str) -> Option<String> {
    Some(s.to_string())
}

#[test]
fn defaults_are_those_of_the_service() {
    assert_eq!(DEFAULT_ACCESS_TTL_SECS, 900);
    assert_eq!(DEFAULT_REFRESH_TTL_SECS, 2_592_000);
    assert_eq!(RESET_TTL_SECS, 900);
}

#[test]
fn access_secret_is_required() {
    assert_eq!(access_secret(None), Err(ConfigError::MissingAccessSecret));
    assert_eq!(access_secret(some("s3cret")), Ok("s3cret".to_string()));
    let config = AuthConfig::from_options(None, some("r"), some("10"), some("20"), some("true"));
    assert_eq!(config.err(), Some(ConfigError::MissingAccessSecret));
}

#[test]
fn refresh_secret_defaults_to_access_secret() {
    assert_eq!(refresh_secret(None, &"a".to_string()), "a");
    assert_eq!(refresh_secret(some("r"), &"a".to_string()), "r");
    let config = AuthConfig::from_options(some("a"), None, None, None, None).unwrap();
    assert_eq!(config.access_secret, "a");
    assert_eq!(config.refresh_secret, "a");
}

#[test]
fn lifetimes_fall_back_to_their_defaults() {
    assert_eq!(access_ttl_secs(&None), 900);
    assert_eq!(access_ttl_secs(&some("abc")), 900);
    assert_eq!(access_ttl_secs(&some("")), 900);
    assert_eq!(access_ttl_secs(&some(" 60")), 900);
    assert_eq!(access_ttl_secs(&some("60")), 60);
    assert_eq!(access_ttl_secs(&some("-5")), -5);
    assert_eq!(refresh_ttl_secs(&None), 2_592_000);
    assert_eq!(refresh_ttl_secs(&some("1.5")), 2_592_000);
    assert_eq!(refresh_ttl_secs(&some("86400")), 86400);
}

#[test]
fn production_mode_needs_the_exact_word() {
    assert!(production_mode(&some("true")));
    assert!(!production_mode(&some("TRUE")));
    assert!(!production_mode(&some("1")));
    assert!(!production_mode(&some("true ")));
    assert!(!production_mode(&some("")));
    assert!(!production_mode(&None));
}

#[test]
fn from_options_takes_every_option() {
    let config =
        AuthConfig::from_options(some("a"), some("r"), some("60"), some("x"), some("true"))
            .unwrap();
    assert_eq!(config.access_secret, "a");
    assert_eq!(config.refresh_secret, "r");
    assert_eq!(config.access_ttl_secs, 60);
    assert_eq!(config.refresh_ttl_secs, 2_592_000);
    assert!(config.production);
}
