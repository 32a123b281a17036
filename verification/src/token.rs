//! Token codec: issuing and verifying the three kinds of signed, time-bounded
//! claims. The clock is the caller's: every function takes the current time
//! in seconds since the epoch.

use vstd::prelude::*;
use crate::config::{AuthConfig, RESET_TTL_SECS};
use crate::jwt::{
    jwt_decode, jwt_encode, no_others, object_int, object_ints, object_new, object_others,
    object_put_int, object_put_text, object_text, object_texts, signed_claims, token_text,
    uuid_parse, uuid_string, uuid_value, JsonObject,
};
use crate::text::same_text;

verus! {

/// The three kinds of token.
#[derive(Clone, Copy, Debug, PartialEq, Eq, Structural)]
pub enum TokenKind {
    /// Short-lived; authorises ordinary requests.
    Access,
    /// Long-lived; good only for minting access tokens.
    Refresh,
    /// Short-lived and scope-marked; good only for one password reset.
    Reset,
}

/// An opaque user identifier: the 128 bits of a UUID.
#[derive(Clone, Copy, Debug, PartialEq, Eq, Structural)]
pub struct UserId {
    pub value: u128,
}

/// The claims of an access or refresh token.
#[derive(Clone, Copy, Debug, PartialEq, Eq, Structural)]
pub struct Claims {
    pub sub: UserId,
    pub iat: i64,
    pub exp: i64,
}

impl Claims {
    /// Claims are well formed where they were issued before they expire.
    pub open spec fn well_formed(self) -> bool {
        self.iat < self.exp
    }
}

/// The claims of a reset token.
#[derive(Clone, Debug)]
pub struct ResetClaims {
    pub sub: UserId,
    pub iat: i64,
    pub exp: i64,
    pub scope: String,
}

/// Why a token was not issued or not accepted.
#[derive(Clone, Copy, Debug, PartialEq, Eq, Structural)]
pub enum TokenError {
    /// The lifetime is not positive, or the expiry does not fit 64 bits.
    InvalidLifetime,
    /// The signing library reported a fault.
    Signing,
    /// The token is malformed, wrongly signed, expired or of another kind.
    Rejected,
}

/// What a token says, as the codec reads it off the wire.
pub struct Payload {
    pub sub: UserId,
    pub iat: i64,
    pub exp: i64,
    pub scope: Option<Seq<char>>,
}

/// The scope marker of reset tokens.
pub open spec fn reset_scope() -> Seq<char> {
    "password_reset"@
}

/// The scope that a token of the given kind carries: none but for resets.
pub open spec fn scope_of(kind: TokenKind) -> Option<Seq<char>> {
    match kind {
        TokenKind::Reset => Some(reset_scope()),
        _ => None,
    }
}

/// The payload that a claims object spells: a `sub` that reads as an
/// identifier, integers `iat` and `exp`, and the `scope` where there is one.
pub open spec fn payload_of(texts: Map<Seq<char>, Seq<char>>, ints: Map<Seq<char>, i64>) -> Option<
    Payload,
> {
    if texts.contains_key("sub"@) && uuid_value(texts["sub"@]) is Some && ints.contains_key("iat"@)
        && ints.contains_key("exp"@) {
        Some(
            Payload {
                sub: UserId { value: uuid_value(texts["sub"@])->Some_0 },
                iat: ints["iat"@],
                exp: ints["exp"@],
                scope: if texts.contains_key("scope"@) {
                    Some(texts["scope"@])
                } else {
                    None
                },
            },
        )
    } else {
        None
    }
}

/// The payload of `token`, where `secret` confirms its signature.
pub open spec fn decoded_payload(token: Seq<char>, secret: Seq<char>) -> Option<Payload> {
    match signed_claims(token, secret) {
        Some(members) => payload_of(members.0, members.1),
        None => None,
    }
}

/// Whether a payload passes as a token of the given kind at time `now`: the
/// scope is that of the kind, it was issued before it expires, and it has not
/// expired yet.
pub open spec fn payload_accepted(kind: TokenKind, payload: Payload, now: i64) -> bool {
    &&& payload.scope == scope_of(kind)
    &&& payload.iat < payload.exp
    &&& now < payload.exp
}

/// What verification makes of a payload that was or was not read.
pub open spec fn accepted_claims(kind: TokenKind, payload: Option<Payload>, now: i64) -> Result<
    Claims,
    TokenError,
> {
    match payload {
        Some(p) => if payload_accepted(kind, p, now) {
            Ok(Claims { sub: p.sub, iat: p.iat, exp: p.exp })
        } else {
            Err(TokenError::Rejected)
        },
        None => Err(TokenError::Rejected),
    }
}

/// What verifying `token` as a token of the given kind gives at time `now`.
pub open spec fn verification(kind: TokenKind, token: Seq<char>, secret: Seq<char>, now: i64)
    -> Result<Claims, TokenError> {
    accepted_claims(kind, decoded_payload(token, secret), now)
}

/// Whether a token issued at `now` for `ttl` seconds has well-formed claims.
pub open spec fn lifetime_fits(now: i64, ttl: i64) -> bool {
    0 < ttl && now + ttl <= i64::MAX
}

/// The payload of a token of the given kind issued at `now` for `ttl` seconds.
pub open spec fn minted(kind: TokenKind, subject: UserId, now: i64, ttl: i64) -> Payload {
    Payload { sub: subject, iat: now, exp: (now + ttl) as i64, scope: scope_of(kind) }
}

/// What `issue` returns for the given inputs: where the lifetime fits, a
/// token that decodes under `secret` to exactly the claims it was issued
/// with; else the error that says that the lifetime does not fit.
pub open spec fn issued(
    kind: TokenKind,
    secret: Seq<char>,
    ttl: i64,
    subject: UserId,
    now: i64,
    r: Result<String, TokenError>,
) -> bool {
    if lifetime_fits(now, ttl) {
        r is Ok && token_text(r->Ok_0@) && decoded_payload(r->Ok_0@, secret) == Some(
            minted(kind, subject, now, ttl),
        )
    } else {
        r is Err && r->Err_0 == TokenError::InvalidLifetime
    }
}

/// The four member names are pairwise different.
proof fn lemma_member_names()
    ensures
        "sub"@ != "iat"@,
        "sub"@ != "exp"@,
        "sub"@ != "scope"@,
        "iat"@ != "exp"@,
        "iat"@ != "scope"@,
        "exp"@ != "scope"@,
{
    reveal_strlit("sub");
    reveal_strlit("iat");
    reveal_strlit("exp");
    reveal_strlit("scope");
    assert("sub"@[0] == 's' && "iat"@[0] == 'i' && "exp"@[0] == 'e');
    assert("scope"@.len() == 5 && "sub"@.len() == 3 && "iat"@.len() == 3 && "exp"@.len() == 3);
}

fn claims_object(kind: TokenKind, subject: UserId, iat: i64, exp: i64) -> (object: JsonObject)
    ensures
        payload_of(object_texts(object), object_ints(object)) == Some(
            Payload { sub: subject, iat, exp, scope: scope_of(kind) },
        ),
        object_others(object) == no_others(),
{
    proof {
        lemma_member_names();
    }
    let sub = uuid_string(subject.value);
    let mut object = object_new();
    object_put_int(&mut object, "iat", iat);
    object_put_int(&mut object, "exp", exp);
    object_put_text(&mut object, "sub", sub.as_str());
    assert(object_ints(object).contains_key("iat"@) && object_ints(object)["iat"@] == iat);
    assert(object_ints(object).contains_key("exp"@) && object_ints(object)["exp"@] == exp);
    assert(!object_texts(object).contains_key("scope"@));
    match kind {
        TokenKind::Reset => {
            object_put_text(&mut object, "scope", "password_reset");
        },
        _ => {},
    }
    assert(object_others(object) =~= no_others());
    object
}

/// Turns what the signing library returned into the library's own result.
pub fn token_from(outcome: Result<String, jsonwebtoken::errors::Error>) -> (r: Result<
    String,
    TokenError,
>)
    ensures
        match outcome {
            Ok(token) => r == Ok::<String, TokenError>(token),
            Err(_) => r == Err::<String, TokenError>(TokenError::Signing),
        },
{
    match outcome {
        Ok(token) => Ok(token),
        Err(_) => Err(TokenError::Signing),
    }
}

/// Issues a token of the given kind for `subject`, valid from `now` for `ttl`
/// seconds and signed with `secret`. It succeeds wherever the lifetime is
/// positive and the expiry fits 64 bits, and the token decodes under `secret`
/// to exactly those claims.
pub fn issue(kind: TokenKind, secret: &str, ttl: i64, subject: UserId, now: i64) -> (r: Result<
    String,
    TokenError,
>)
    ensures
        issued(kind, secret@, ttl, subject, now, r),
{
    if ttl <= 0 {
        return Err(TokenError::InvalidLifetime);
    }
    let exp = match now.checked_add(ttl) {
        Some(exp) => exp,
        None => {
            return Err(TokenError::InvalidLifetime);
        },
    };
    let object = claims_object(kind, subject, now, exp);
    token_from(jwt_encode(&object, secret))
}

/// Judges a decoded claims object as a token of the given kind at time `now`.
pub fn claims_from(kind: TokenKind, object: &JsonObject, now: i64) -> (r: Result<
    Claims,
    TokenError,
>)
    ensures
        r == accepted_claims(kind, payload_of(object_texts(*object), object_ints(*object)), now),
{
    let sub = match object_text(object, "sub") {
        Some(text) => match uuid_parse(text.as_str()) {
            Some(value) => UserId { value },
            None => {
                return Err(TokenError::Rejected);
            },
        },
        None => {
            return Err(TokenError::Rejected);
        },
    };
    let iat = match object_int(object, "iat") {
        Some(iat) => iat,
        None => {
            return Err(TokenError::Rejected);
        },
    };
    let exp = match object_int(object, "exp") {
        Some(exp) => exp,
        None => {
            return Err(TokenError::Rejected);
        },
    };
    let scope_fits = match object_text(object, "scope") {
        Some(scope) => match kind {
            TokenKind::Reset => same_text(scope.as_str(), "password_reset"),
            _ => false,
        },
        None => match kind {
            TokenKind::Reset => false,
            _ => true,
        },
    };
    if scope_fits && iat < exp && now < exp {
        Ok(Claims { sub, iat, exp })
    } else {
        Err(TokenError::Rejected)
    }
}

/// Verifies `token` as a token of the given kind at time `now`. Fails closed:
/// whatever is wrong with the token, the answer is the same rejection.
pub fn verify(kind: TokenKind, secret: &str, token: &str, now: i64) -> (r: Result<
    Claims,
    TokenError,
>)
    ensures
        r == verification(kind, token@, secret@, now),
{
    match jwt_decode(token, secret) {
        Ok(object) => claims_from(kind, &object, now),
        Err(_) => Err(TokenError::Rejected),
    }
}

/// Issues an access token for `user_id` at time `now`.
pub fn generate_access_token(config: &AuthConfig, user_id: UserId, now: i64) -> (r: Result<
    String,
    TokenError,
>)
    ensures
        issued(
            TokenKind::Access,
            config.access_secret@,
            config.access_ttl_secs,
            user_id,
            now,
            r,
        ),
{
    issue(TokenKind::Access, config.access_secret.as_str(), config.access_ttl_secs, user_id, now)
}

/// Issues a refresh token for `user_id` at time `now`.
pub fn generate_refresh_token(config: &AuthConfig, user_id: UserId, now: i64) -> (r: Result<
    String,
    TokenError,
>)
    ensures
        issued(
            TokenKind::Refresh,
            config.refresh_secret@,
            config.refresh_ttl_secs,
            user_id,
            now,
            r,
        ),
{
    issue(
        TokenKind::Refresh,
        config.refresh_secret.as_str(),
        config.refresh_ttl_secs,
        user_id,
        now,
    )
}

/// Issues a reset token for `user_id` at time `now`.
pub fn generate_reset_token(config: &AuthConfig, user_id: UserId, now: i64) -> (r: Result<
    String,
    TokenError,
>)
    ensures
        issued(TokenKind::Reset, config.access_secret@, RESET_TTL_SECS, user_id, now, r),
{
    issue(TokenKind::Reset, config.access_secret.as_str(), RESET_TTL_SECS, user_id, now)
}

/// Verifies `token` as an access token at time `now`. Access and refresh
/// tokens carry claims of one shape, so only the secret tells them apart:
/// where the two secrets are one, a refresh token verifies as an access
/// token.
pub fn verify_access(config: &AuthConfig, token: &str, now: i64) -> (r: Result<Claims, TokenError>)
    ensures
        r == verification(TokenKind::Access, token@, config.access_secret@, now),
{
    verify(TokenKind::Access, config.access_secret.as_str(), token, now)
}

/// Verifies `token` as a refresh token at time `now`. Access and refresh
/// tokens carry claims of one shape, so only the secret tells them apart:
/// where the two secrets are one, an access token verifies as a refresh
/// token.
pub fn verify_refresh(config: &AuthConfig, token: &str, now: i64) -> (r: Result<Claims, TokenError>)
    ensures
        r == verification(TokenKind::Refresh, token@, config.refresh_secret@, now),
{
    verify(TokenKind::Refresh, config.refresh_secret.as_str(), token, now)
}

/// Verifies `token` as a reset token at time `now`.
pub fn verify_reset(config: &AuthConfig, token: &str, now: i64) -> (r: Result<
    ResetClaims,
    TokenError,
>)
    ensures
        match verification(TokenKind::Reset, token@, config.access_secret@, now) {
            Ok(claims) => r is Ok && r->Ok_0.sub == claims.sub && r->Ok_0.iat == claims.iat
                && r->Ok_0.exp == claims.exp && r->Ok_0.scope@ == reset_scope(),
            Err(e) => r is Err && r->Err_0 == e,
        },
{
    match verify(TokenKind::Reset, config.access_secret.as_str(), token, now) {
        Ok(claims) => Ok(
            ResetClaims {
                sub: claims.sub,
                iat: claims.iat,
                exp: claims.exp,
                scope: "password_reset".to_owned(),
            },
        ),
        Err(e) => Err(e),
    }
}

/// A token verifies as its own kind, under the secret that signed it, from
/// the moment it is issued until just before it expires, and the claims that
/// come back name the subject it was issued for.
pub proof fn law_fresh_token_verifies(
    kind: TokenKind,
    token: Seq<char>,
    secret: Seq<char>,
    subject: UserId,
    issued_at: i64,
    ttl: i64,
    now: i64,
)
    requires
        lifetime_fits(issued_at, ttl),
        decoded_payload(token, secret) == Some(minted(kind, subject, issued_at, ttl)),
        issued_at <= now < issued_at + ttl,
    ensures
        verification(kind, token, secret, now) == Ok::<Claims, TokenError>(
            Claims { sub: subject, iat: issued_at, exp: (issued_at + ttl) as i64 },
        ),
        verification(kind, token, secret, issued_at) is Ok,
        verification(kind, token, secret, issued_at)->Ok_0.sub == subject,
{
}

/// Claims that verification hands out are well formed and not expired.
pub proof fn law_verified_claims_are_live(
    kind: TokenKind,
    token: Seq<char>,
    secret: Seq<char>,
    now: i64,
)
    ensures
        verification(kind, token, secret, now) matches Ok(claims) ==> claims.well_formed() && now
            < claims.exp,
{
}

/// A token is rejected at its expiry and at every later moment, whatever its
/// kind; before that it is accepted exactly where its scope is that of the
/// kind and it was issued before it expires.
pub proof fn law_expiry_is_final(kind: TokenKind, token: Seq<char>, secret: Seq<char>, now: i64)
    ensures
        match decoded_payload(token, secret) {
            Some(p) => if now >= p.exp {
                verification(kind, token, secret, now) == Err::<Claims, TokenError>(
                    TokenError::Rejected,
                )
            } else {
                verification(kind, token, secret, now) is Ok <==> p.scope == scope_of(kind)
                    && p.iat < p.exp
            },
            None => verification(kind, token, secret, now) == Err::<Claims, TokenError>(
                TokenError::Rejected,
            ),
        },
{
}

/// Once rejected for its age, always rejected: verification never recovers
/// as time goes on.
pub proof fn law_rejection_lasts(
    kind: TokenKind,
    token: Seq<char>,
    secret: Seq<char>,
    earlier: i64,
    later: i64,
)
    requires
        earlier <= later,
        verification(kind, token, secret, earlier) is Err,
    ensures
        verification(kind, token, secret, later) is Err,
{
}

/// Under one secret, access and refresh verification are the same: nothing
/// in the claims tells the two kinds apart.
pub proof fn law_login_kinds_share_a_shape(token: Seq<char>, secret: Seq<char>, now: i64)
    ensures
        verification(TokenKind::Access, token, secret, now) == verification(
            TokenKind::Refresh,
            token,
            secret,
            now,
        ),
{
}

/// Issuing succeeds exactly where the lifetime fits, and what it returns
/// then verifies at once, as its own kind, to the subject it was issued for.
pub proof fn law_issue_succeeds(
    kind: TokenKind,
    secret: Seq<char>,
    ttl: i64,
    subject: UserId,
    now: i64,
    r: Result<String, TokenError>,
)
    requires
        issued(kind, secret, ttl, subject, now, r),
    ensures
        r is Ok <==> lifetime_fits(now, ttl),
        r matches Ok(token) ==> verification(kind, token@, secret, now) == Ok::<
            Claims,
            TokenError,
        >(Claims { sub: subject, iat: now, exp: (now + ttl) as i64 }),
        r matches Err(e) ==> e == TokenError::InvalidLifetime,
{
}

/// A reset token is no login credential: what decodes to reset-scoped claims
/// is rejected as an access token and as a refresh token, at any time.
pub proof fn law_reset_token_is_no_login_token(
    kind: TokenKind,
    token: Seq<char>,
    secret: Seq<char>,
    now: i64,
)
    requires
        kind != TokenKind::Reset,
        decoded_payload(token, secret) matches Some(p) && p.scope is Some,
    ensures
        verification(kind, token, secret, now) == Err::<Claims, TokenError>(TokenError::Rejected),
{
}

/// An access or refresh token is no reset token: what decodes to claims
/// without the reset scope is rejected as a reset token, at any time.
pub proof fn law_login_token_is_no_reset_token(token: Seq<char>, secret: Seq<char>, now: i64)
    requires
        decoded_payload(token, secret) matches Some(p) && p.scope != Some(reset_scope()),
    ensures
        verification(TokenKind::Reset, token, secret, now) == Err::<Claims, TokenError>(
            TokenError::Rejected,
        ),
{
}

} // verus!
