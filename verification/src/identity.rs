//! Identity resolver: the guard of every protected endpoint. From the
//! headers of a request it gives the authenticated user, or a rejection.

use vstd::prelude::*;
use crate::config::AuthConfig;
use crate::extract::{
    access_candidate, access_token_of, cookie_token, law_bearer_reads_back, law_cookie_reads_back,
    lemma_token_has_no_breaks, RequestHeaders,
};
use crate::response::Status;
use crate::token::{
    issued, law_fresh_token_verifies, verification, verify_access, TokenError, TokenKind, UserId,
};

verus! {

/// The user on whose behalf a request is made.
#[derive(Clone, Copy, Debug, PartialEq, Eq, Structural)]
pub struct CurrentUser(pub UserId);

/// What resolving a request gives.
pub enum Resolution {
    /// The request presents no access token.
    Missing,
    /// The request presents an access token that does not verify.
    Invalid,
    /// The request presents a valid access token of this user.
    User(UserId),
}

/// Whom the headers of a request identify at time `now`.
pub open spec fn resolution(headers: RequestHeaders, config: AuthConfig, now: i64) -> Resolution {
    match access_candidate(headers) {
        None => Resolution::Missing,
        Some(token) => match verification(TokenKind::Access, token, config.access_secret@, now) {
            Ok(claims) => Resolution::User(claims.sub),
            Err(_) => Resolution::Invalid,
        },
    }
}

/// What was issued opens the guard, as a cookie: a request whose `Cookie`
/// header starts with `auth=` and an access token that was issued for a user
/// is resolved to that user, from the moment of issue until just before the
/// token expires, whatever cookies follow and whatever else the request
/// carries.
pub proof fn law_issued_cookie_identifies(
    config: AuthConfig,
    headers: RequestHeaders,
    rest: Seq<char>,
    subject: UserId,
    issued_at: i64,
    token: Result<String, TokenError>,
    now: i64,
)
    requires
        issued(
            TokenKind::Access,
            config.access_secret@,
            config.access_ttl_secs,
            subject,
            issued_at,
            token,
        ),
        token is Ok,
        issued_at <= now < issued_at + config.access_ttl_secs,
        headers.cookie matches Some(cookie) && cookie@ == "auth="@ + token->Ok_0@ + rest,
        rest.len() == 0 || rest[0] == ';',
    ensures
        resolution(headers, config, now) == Resolution::User(subject),
{
    let text = token->Ok_0@;
    reveal_strlit("auth");
    reveal_strlit("auth=");
    assert("auth="@ =~= "auth"@.push('='));
    lemma_token_has_no_breaks(text);
    law_cookie_reads_back("auth"@, text, rest);
    law_fresh_token_verifies(
        TokenKind::Access,
        text,
        config.access_secret@,
        subject,
        issued_at,
        config.access_ttl_secs,
        now,
    );
}

/// What was issued opens the guard, as a bearer token: a request without a
/// cookie `auth` whose `Authorization` header is `Bearer ` and an access
/// token that was issued for a user is resolved to that user, from the moment
/// of issue until just before the token expires.
pub proof fn law_issued_bearer_identifies(
    config: AuthConfig,
    headers: RequestHeaders,
    subject: UserId,
    issued_at: i64,
    token: Result<String, TokenError>,
    now: i64,
)
    requires
        issued(
            TokenKind::Access,
            config.access_secret@,
            config.access_ttl_secs,
            subject,
            issued_at,
            token,
        ),
        token is Ok,
        issued_at <= now < issued_at + config.access_ttl_secs,
        cookie_token(headers, "auth"@) is None,
        headers.authorization matches Some(value) && value@ == "Bearer "@ + token->Ok_0@,
    ensures
        resolution(headers, config, now) == Resolution::User(subject),
{
    law_bearer_reads_back(token->Ok_0@);
    law_fresh_token_verifies(
        TokenKind::Access,
        token->Ok_0@,
        config.access_secret@,
        subject,
        issued_at,
        config.access_ttl_secs,
        now,
    );
}

impl CurrentUser {
    /// Resolves the user of a request from its headers at time `now`. A
    /// missing token and an invalid one are both refused under the status
    /// 401; only the message tells them apart.
    pub fn from_request_parts(headers: &RequestHeaders, config: &AuthConfig, now: i64) -> (r: Result<
        CurrentUser,
        (Status, String),
    >)
        ensures
            match resolution(*headers, *config, now) {
                Resolution::User(id) => r is Ok && r->Ok_0.0 == id,
                Resolution::Missing => r is Err && r->Err_0.0 == Status::Unauthorized
                    && r->Err_0.1@ == "Token manquant"@,
                Resolution::Invalid => r is Err && r->Err_0.0 == Status::Unauthorized
                    && r->Err_0.1@ == "Token invalide"@,
            },
    {
        let token = match access_token_of(headers) {
            Some(token) => token,
            None => {
                return Err((Status::Unauthorized, "Token manquant".to_owned()));
            },
        };
        match verify_access(config, token.as_str(), now) {
            Ok(claims) => Ok(CurrentUser(claims.sub)),
            Err(_) => Err((Status::Unauthorized, "Token invalide".to_owned())),
        }
    }
}

} // verus!
