//! Cookie policy: the text of the `Set-Cookie` headers that carry the tokens
//! to the client, and of those that make the client discard them.

use vstd::prelude::*;
use crate::config::AuthConfig;
use crate::decimal::{decimal_string, decimal_text};

verus! {

/// The `SameSite` attribute of a cookie.
#[derive(Clone, Copy, Debug, PartialEq, Eq, Structural)]
pub enum SameSite {
    Lax,
    Strict,
}

/// The text of a `SameSite` attribute's value.
pub open spec fn same_site_text(same_site: SameSite) -> Seq<char> {
    match same_site {
        SameSite::Lax => "Lax"@,
        SameSite::Strict => "Strict"@,
    }
}

/// The text of the `Secure` attribute: there or not.
pub open spec fn secure_text(secure: bool) -> Seq<char> {
    if secure {
        "; Secure"@
    } else {
        Seq::empty()
    }
}

/// The text of a `Set-Cookie` header:
/// `name=value; Path=/; Max-Age=<seconds>; HttpOnly; SameSite=<Lax|Strict>[; Secure]`.
pub open spec fn set_cookie_text(
    name: Seq<char>,
    value: Seq<char>,
    max_age: i64,
    same_site: SameSite,
    secure: bool,
) -> Seq<char> {
    name + "="@ + value + "; Path=/; Max-Age="@ + decimal_text(max_age as int)
        + "; HttpOnly; SameSite="@ + same_site_text(same_site) + secure_text(secure)
}

/// The header that hands the client an access token.
pub open spec fn auth_cookie_text(config: AuthConfig, token: Seq<char>) -> Seq<char> {
    set_cookie_text("auth"@, token, config.access_ttl_secs, SameSite::Lax, config.production)
}

/// The header that hands the client a refresh token.
pub open spec fn refresh_cookie_text(config: AuthConfig, token: Seq<char>) -> Seq<char> {
    set_cookie_text("refresh"@, token, config.refresh_ttl_secs, SameSite::Strict, config.production)
}

/// The header that makes the client discard its access token.
pub open spec fn expired_auth_cookie_text(config: AuthConfig) -> Seq<char> {
    set_cookie_text("auth"@, Seq::empty(), 0, SameSite::Lax, config.production)
}

/// The header that makes the client discard its refresh token.
pub open spec fn expired_refresh_cookie_text(config: AuthConfig) -> Seq<char> {
    set_cookie_text("refresh"@, Seq::empty(), 0, SameSite::Strict, config.production)
}

/// Writes a `Set-Cookie` header.
pub fn set_cookie(name: &str, value: &str, max_age: i64, same_site: SameSite, secure: bool) -> (s:
    String)
    ensures
        s@ == set_cookie_text(name@, value@, max_age, same_site, secure),
{
    let seconds = decimal_string(max_age);
    let mut s = name.to_owned();
    s.append("=");
    s.append(value);
    s.append("; Path=/; Max-Age=");
    s.append(seconds.as_str());
    s.append("; HttpOnly; SameSite=");
    match same_site {
        SameSite::Lax => {
            s.append("Lax");
        },
        SameSite::Strict => {
            s.append("Strict");
        },
    }
    if secure {
        s.append("; Secure");
    }
    assert(s@ =~= set_cookie_text(name@, value@, max_age, same_site, secure));
    s
}

/// Writes the header that hands the client an access token.
pub fn auth_cookie(config: &AuthConfig, token: &str) -> (s: String)
    ensures
        s@ == auth_cookie_text(*config, token@),
{
    set_cookie("auth", token, config.access_ttl_secs, SameSite::Lax, config.production)
}

/// Writes the header that hands the client a refresh token.
pub fn refresh_cookie(config: &AuthConfig, token: &str) -> (s: String)
    ensures
        s@ == refresh_cookie_text(*config, token@),
{
    set_cookie("refresh", token, config.refresh_ttl_secs, SameSite::Strict, config.production)
}

/// Writes the header that makes the client discard its access token.
pub fn expired_auth_cookie(config: &AuthConfig) -> (s: String)
    ensures
        s@ == expired_auth_cookie_text(*config),
{
    proof {
        reveal_strlit("");
    }
    assert(""@ =~= Seq::<char>::empty());
    set_cookie("auth", "", 0, SameSite::Lax, config.production)
}

/// Writes the header that makes the client discard its refresh token.
pub fn expired_refresh_cookie(config: &AuthConfig) -> (s: String)
    ensures
        s@ == expired_refresh_cookie_text(*config),
{
    proof {
        reveal_strlit("");
    }
    assert(""@ =~= Seq::<char>::empty());
    set_cookie("refresh", "", 0, SameSite::Strict, config.production)
}

/// A cookie that makes the client discard a token says `Max-Age=0`.
pub proof fn law_expired_cookie_has_no_age(name: Seq<char>, same_site: SameSite, secure: bool)
    ensures
        set_cookie_text(name, Seq::empty(), 0, same_site, secure) == name + "="@
            + "; Path=/; Max-Age="@ + "0"@ + "; HttpOnly; SameSite="@ + same_site_text(same_site)
            + secure_text(secure),
{
    reveal_strlit("0");
    assert(decimal_text(0) =~= "0"@);
    assert(name + "="@ + Seq::<char>::empty() =~= name + "="@);
}

} // verus!
