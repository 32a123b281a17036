//! The configuration of the authentication core: built once from the
//! recognised options, then passed to whatever needs it.

use vstd::prelude::*;
use crate::decimal::{decimal_i64, parse_i64};
use crate::text::{same_text, text_of};

verus! {

/// Seconds an access token lives where nothing else is configured.
pub const DEFAULT_ACCESS_TTL_SECS: i64 = 900;

/// Seconds a refresh token lives where nothing else is configured.
pub const DEFAULT_REFRESH_TTL_SECS: i64 = 2_592_000;

/// Seconds a password-reset token lives.
pub const RESET_TTL_SECS: i64 = 900;

/// Why no configuration could be built.
#[derive(Clone, Copy, Debug, PartialEq, Eq, Structural)]
pub enum ConfigError {
    /// The access secret is required and was not given.
    MissingAccessSecret,
}

/// Secrets, lifetimes and the production flag. Read-only once built.
#[derive(Clone, Debug)]
pub struct AuthConfig {
    pub access_secret: String,
    pub refresh_secret: String,
    pub access_ttl_secs: i64,
    pub refresh_ttl_secs: i64,
    pub production: bool,
}

/// The lifetime that an option's raw value sets: its value where it spells a
/// 64-bit integer, else the default.
pub open spec fn ttl_setting(raw: Option<Seq<char>>, default: i64) -> i64 {
    match raw {
        Some(s) => match decimal_i64(s) {
            Some(v) => v,
            None => default,
        },
        None => default,
    }
}

/// The production flag that an option's raw value sets: on for `true`, off
/// for anything else.
pub open spec fn production_setting(raw: Option<Seq<char>>) -> bool {
    raw == Some("true"@)
}

/// The refresh secret that an option's raw value sets: the access secret
/// where none is given.
pub open spec fn refresh_setting(raw: Option<Seq<char>>, access: Seq<char>) -> Seq<char> {
    match raw {
        Some(s) => s,
        None => access,
    }
}

fn ttl_from(raw: &Option<String>, default: i64) -> (ttl: i64)
    ensures
        ttl == ttl_setting(text_of(*raw), default),
{
    match raw {
        Some(s) => match parse_i64(s.as_str()) {
            Some(v) => v,
            None => default,
        },
        None => default,
    }
}

/// The access secret, which must be given.
pub fn access_secret(raw: Option<String>) -> (r: Result<String, ConfigError>)
    ensures
        match raw {
            Some(s) => r == Ok::<String, ConfigError>(s),
            None => r == Err::<String, ConfigError>(ConfigError::MissingAccessSecret),
        },
{
    match raw {
        Some(s) => Ok(s),
        None => Err(ConfigError::MissingAccessSecret),
    }
}

/// The refresh secret: the one given, else the access secret.
pub fn refresh_secret(raw: Option<String>, access: &String) -> (secret: String)
    ensures
        secret@ == refresh_setting(text_of(raw), access@),
{
    match raw {
        Some(s) => s,
        None => access.clone(),
    }
}

/// The lifetime of access tokens, in seconds.
pub fn access_ttl_secs(raw: &Option<String>) -> (ttl: i64)
    ensures
        ttl == ttl_setting(text_of(*raw), DEFAULT_ACCESS_TTL_SECS),
{
    ttl_from(raw, DEFAULT_ACCESS_TTL_SECS)
}

/// The lifetime of refresh tokens, in seconds.
pub fn refresh_ttl_secs(raw: &Option<String>) -> (ttl: i64)
    ensures
        ttl == ttl_setting(text_of(*raw), DEFAULT_REFRESH_TTL_SECS),
{
    ttl_from(raw, DEFAULT_REFRESH_TTL_SECS)
}

/// Whether the service runs in production mode.
pub fn production_mode(raw: &Option<String>) -> (on: bool)
    ensures
        on == production_setting(text_of(*raw)),
{
    match raw {
        Some(s) => same_text(s.as_str(), "true"),
        None => false,
    }
}

impl AuthConfig {
    /// Builds the configuration from the raw values of the five recognised
    /// options, each absent or present. Only a missing access secret is an
    /// error; a lifetime that spells no integer falls back to its default.
    pub fn from_options(
        access_secret_option: Option<String>,
        refresh_secret_option: Option<String>,
        access_ttl_option: Option<String>,
        refresh_ttl_option: Option<String>,
        production_option: Option<String>,
    ) -> (r: Result<AuthConfig, ConfigError>)
        ensures
            match access_secret_option {
                None => r is Err && r->Err_0 == ConfigError::MissingAccessSecret,
                Some(access) => r is Ok && ({
                    let config = r->Ok_0;
                    &&& config.access_secret@ == access@
                    &&& config.refresh_secret@ == refresh_setting(
                        text_of(refresh_secret_option),
                        access@,
                    )
                    &&& config.access_ttl_secs == ttl_setting(
                        text_of(access_ttl_option),
                        DEFAULT_ACCESS_TTL_SECS,
                    )
                    &&& config.refresh_ttl_secs == ttl_setting(
                        text_of(refresh_ttl_option),
                        DEFAULT_REFRESH_TTL_SECS,
                    )
                    &&& config.production == production_setting(text_of(production_option))
                }),
            },
    {
        let access = match access_secret(access_secret_option) {
            Ok(s) => s,
            Err(e) => {
                return Err(e);
            },
        };
        let refresh = refresh_secret(refresh_secret_option, &access);
        Ok(
            AuthConfig {
                access_secret: access,
                refresh_secret: refresh,
                access_ttl_secs: access_ttl_secs(&access_ttl_option),
                refresh_ttl_secs: refresh_ttl_secs(&refresh_ttl_option),
                production: production_mode(&production_option),
            },
        )
    }
}

} // verus!
