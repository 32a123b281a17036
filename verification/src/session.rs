//! Session flows: login, refresh, logout, profile, password change and
//! password reset. Each flow is a function from what the request and the user
//! store gave to the reply, or to the one write that the store has to make
//! before the reply is known. The store and the clock are the caller's.

use vstd::prelude::*;
use crate::config::{AuthConfig, RESET_TTL_SECS};
use crate::cookies::{
    auth_cookie, auth_cookie_text, expired_auth_cookie, expired_auth_cookie_text,
    expired_refresh_cookie, expired_refresh_cookie_text, refresh_cookie, refresh_cookie_text,
};
use crate::extract::{
    bearer_token, law_bearer_reads_back, law_cookie_reads_back, lemma_token_has_no_breaks,
    refresh_candidate, refresh_token_of, RequestHeaders,
};
use crate::identity::CurrentUser;
use crate::models::{ChangePasswordPayload, ConfirmPasswordResetPayload, LoginUser};
use crate::password::{credential_matches, hash_password, hashed, verify_password, HashError};
use crate::response::Status;
use crate::token::{
    generate_access_token, generate_refresh_token, generate_reset_token, issued,
    law_fresh_token_verifies, lifetime_fits, verification, verify_refresh, verify_reset, Claims,
    TokenError, TokenKind, UserId,
};

verus! {

/// The fewest characters that a new password may have.
pub const MIN_PASSWORD_CHARS: usize = 8;

/// What the user store answered to a lookup.
pub enum Lookup<T> {
    /// The record that was asked for.
    Found(T),
    /// There is no such record.
    Missing,
    /// The store could not answer.
    Failed,
}

/// What the user store answered to a write.
#[derive(Clone, Copy, Debug, PartialEq, Eq, Structural)]
pub enum Written {
    Done,
    Failed,
}

/// What a login needs of a user: identifier and stored credential.
pub struct UserRecord {
    pub id: UserId,
    pub password: String,
}

/// The public profile of a user.
pub struct UserProfile {
    pub id: UserId,
    pub username: String,
    pub email: Option<String>,
}

/// The body of a reply.
pub enum Body {
    /// Plain text.
    Text(String),
    /// The object `{"reset_token": ..}`.
    ResetToken(String),
    /// The object `{"status": "ok"}`.
    StatusOk,
    /// The object `{"id": .., "username": .., "email": ..}`.
    Profile(UserProfile),
}

/// A reply: status, body, and the `Set-Cookie` headers to append, each as a
/// header of its own and in this order.
pub struct Reply {
    pub status: Status,
    pub body: Body,
    pub cookies: Vec<String>,
}

/// What a flow that changes a password asks for next.
pub enum PasswordStep {
    /// Store this credential for this user, then report how it went.
    Store { user: UserId, credential: String },
    /// Nothing to store: this is the reply.
    Answer(Reply),
}

/// What a profile says.
pub struct ProfileView {
    pub id: UserId,
    pub username: Seq<char>,
    pub email: Option<Seq<char>>,
}

/// What a body says.
pub enum BodyView {
    Text(Seq<char>),
    ResetToken(Seq<char>),
    StatusOk,
    Profile(ProfileView),
}

/// What a reply says.
pub struct ReplyView {
    pub status: Status,
    pub body: BodyView,
    pub cookies: Seq<Seq<char>>,
}

/// What a step says.
pub enum StepView {
    Store { user: UserId, credential: Seq<char> },
    Answer(ReplyView),
}

/// The texts of a sequence of strings.
pub open spec fn texts_of(strings: Seq<String>) -> Seq<Seq<char>> {
    strings.map_values(|s: String| s@)
}

impl View for UserProfile {
    type V = ProfileView;

    open spec fn view(&self) -> ProfileView {
        ProfileView {
            id: self.id,
            username: self.username@,
            email: match self.email {
                Some(email) => Some(email@),
                None => None,
            },
        }
    }
}

impl View for Body {
    type V = BodyView;

    open spec fn view(&self) -> BodyView {
        match *self {
            Body::Text(text) => BodyView::Text(text@),
            Body::ResetToken(token) => BodyView::ResetToken(token@),
            Body::StatusOk => BodyView::StatusOk,
            Body::Profile(profile) => BodyView::Profile(profile@),
        }
    }
}

impl View for Reply {
    type V = ReplyView;

    open spec fn view(&self) -> ReplyView {
        ReplyView { status: self.status, body: self.body@, cookies: texts_of(self.cookies@) }
    }
}

impl View for PasswordStep {
    type V = StepView;

    open spec fn view(&self) -> StepView {
        match *self {
            PasswordStep::Store { user, credential } => StepView::Store {
                user,
                credential: credential@,
            },
            PasswordStep::Answer(reply) => StepView::Answer(reply@),
        }
    }
}

/// A reply of plain text without cookies.
pub open spec fn plain(status: Status, text: Seq<char>) -> ReplyView {
    ReplyView { status, body: BodyView::Text(text), cookies: Seq::empty() }
}

/// The reply to a request that met an internal fault: one generic message,
/// whatever the fault.
pub open spec fn internal_fault() -> ReplyView {
    plain(Status::InternalServerError, "Erreur interne"@)
}

/// The reply to a login that is refused, whatever the reason.
pub open spec fn login_refused() -> ReplyView {
    plain(Status::Unauthorized, "Identifiants invalides"@)
}

/// The reply to a login whose password matched, given what issuing the two
/// tokens returned.
pub open spec fn login_view(
    config: AuthConfig,
    access: Result<String, TokenError>,
    refresh: Result<String, TokenError>,
) -> ReplyView {
    match (access, refresh) {
        (Ok(a), Ok(r)) => ReplyView {
            status: Status::Success,
            body: BodyView::Text("Connexion réussie."@),
            cookies: seq![auth_cookie_text(config, a@), refresh_cookie_text(config, r@)],
        },
        _ => internal_fault(),
    }
}

/// What a login may be answered with.
pub open spec fn login_outcome(
    config: AuthConfig,
    now: i64,
    row: Lookup<UserRecord>,
    password: Seq<char>,
    reply: ReplyView,
) -> bool {
    match row {
        Lookup::Failed => reply == internal_fault(),
        Lookup::Missing => reply == login_refused(),
        Lookup::Found(user) => if credential_matches(user.password@, password) {
            exists|access: Result<String, TokenError>, refresh: Result<String, TokenError>|
                #![trigger login_view(config, access, refresh)]
                {
                    &&& issued(
                        TokenKind::Access,
                        config.access_secret@,
                        config.access_ttl_secs,
                        user.id,
                        now,
                        access,
                    )
                    &&& issued(
                        TokenKind::Refresh,
                        config.refresh_secret@,
                        config.refresh_ttl_secs,
                        user.id,
                        now,
                        refresh,
                    )
                    &&& reply == login_view(config, access, refresh)
                }
        } else {
            reply == login_refused()
        },
    }
}

/// The reply to a refresh whose token verified, given what issuing the new
/// access token returned.
pub open spec fn refresh_view(config: AuthConfig, access: Result<String, TokenError>) -> ReplyView {
    match access {
        Ok(a) => ReplyView {
            status: Status::Success,
            body: BodyView::Text("Token régénéré."@),
            cookies: seq![auth_cookie_text(config, a@)],
        },
        Err(_) => internal_fault(),
    }
}

/// What a refresh may be answered with.
pub open spec fn refresh_outcome(
    config: AuthConfig,
    now: i64,
    headers: RequestHeaders,
    reply: ReplyView,
) -> bool {
    match refresh_candidate(headers) {
        None => reply == plain(Status::Unauthorized, "Refresh token requis"@),
        Some(token) => match verification(
            TokenKind::Refresh,
            token,
            config.refresh_secret@,
            now,
        ) {
            Err(_) => reply == plain(Status::Unauthorized, "Refresh token invalide"@),
            Ok(claims) => exists|access: Result<String, TokenError>|
                #![trigger refresh_view(config, access)]
                {
                    &&& issued(
                        TokenKind::Access,
                        config.access_secret@,
                        config.access_ttl_secs,
                        claims.sub,
                        now,
                        access,
                    )
                    &&& reply == refresh_view(config, access)
                },
        },
    }
}

/// The reply to a logout.
pub open spec fn logout_view(config: AuthConfig) -> ReplyView {
    ReplyView {
        status: Status::Success,
        body: BodyView::Text("Déconnecté."@),
        cookies: seq![expired_auth_cookie_text(config), expired_refresh_cookie_text(config)],
    }
}

/// The reply to a request for the user's own profile.
pub open spec fn me_view(row: Lookup<UserProfile>) -> ReplyView {
    match row {
        Lookup::Found(profile) => ReplyView {
            status: Status::Success,
            body: BodyView::Profile(profile@),
            cookies: Seq::empty(),
        },
        Lookup::Missing => plain(Status::NotFound, "Utilisateur introuvable"@),
        Lookup::Failed => internal_fault(),
    }
}

/// The generic reply to a request for a password reset.
pub open spec fn reset_accepted() -> ReplyView {
    ReplyView { status: Status::Accepted, body: BodyView::StatusOk, cookies: Seq::empty() }
}

/// The reply to a request for a password reset outside production, given
/// what issuing the reset token returned: the token itself, where there is
/// one.
pub open spec fn reset_request_view(token: Result<String, TokenError>) -> ReplyView {
    match token {
        Ok(t) => ReplyView {
            status: Status::Accepted,
            body: BodyView::ResetToken(t@),
            cookies: Seq::empty(),
        },
        Err(_) => reset_accepted(),
    }
}

/// What a request for a password reset may be answered with.
pub open spec fn reset_request_outcome(
    config: AuthConfig,
    now: i64,
    row: Lookup<UserId>,
    reply: ReplyView,
) -> bool {
    match row {
        Lookup::Found(user) => if config.production {
            reply == reset_accepted()
        } else {
            exists|token: Result<String, TokenError>|
                #![trigger reset_request_view(token)]
                {
                    &&& issued(
                        TokenKind::Reset,
                        config.access_secret@,
                        RESET_TTL_SECS,
                        user,
                        now,
                        token,
                    )
                    &&& reply == reset_request_view(token)
                }
        },
        _ => reply == reset_accepted(),
    }
}

/// The step that follows hashing a new password for `user`.
pub open spec fn store_view(user: UserId, credential: Result<String, HashError>) -> StepView {
    match credential {
        Ok(c) => StepView::Store { user, credential: c@ },
        Err(_) => StepView::Answer(internal_fault()),
    }
}

/// What a password change may ask for next.
pub open spec fn change_password_outcome(
    user: UserId,
    row: Lookup<String>,
    current_password: Seq<char>,
    new_password: Seq<char>,
    step: StepView,
) -> bool {
    match row {
        Lookup::Failed => step == StepView::Answer(internal_fault()),
        Lookup::Missing => step == StepView::Answer(
            plain(Status::NotFound, "Utilisateur introuvable"@),
        ),
        Lookup::Found(stored) => if credential_matches(stored@, current_password) {
            exists|credential: Result<String, HashError>|
                #![trigger store_view(user, credential)]
                hashed(new_password, credential) && step == store_view(user, credential)
        } else {
            step == StepView::Answer(plain(Status::Unauthorized, "Mot de passe actuel incorrect"@))
        },
    }
}

/// What the confirmation of a password reset may ask for next.
pub open spec fn confirm_reset_outcome(
    config: AuthConfig,
    now: i64,
    token: Seq<char>,
    new_password: Seq<char>,
    step: StepView,
) -> bool {
    match verification(TokenKind::Reset, token, config.access_secret@, now) {
        Err(_) => step == StepView::Answer(plain(Status::BadRequest, "Token invalide ou expiré"@)),
        Ok(claims) => if new_password.len() < MIN_PASSWORD_CHARS {
            step == StepView::Answer(plain(Status::BadRequest, "Mot de passe trop court"@))
        } else {
            exists|credential: Result<String, HashError>|
                #![trigger store_view(claims.sub, credential)]
                hashed(new_password, credential) && step == store_view(claims.sub, credential)
        },
    }
}

/// The reply once the store has answered to the write of a credential.
pub open spec fn stored_view(outcome: Written, done: Seq<char>) -> ReplyView {
    match outcome {
        Written::Done => plain(Status::Success, done),
        Written::Failed => internal_fault(),
    }
}

/// A refused login looks the same whether the user is unknown or the
/// password is wrong: same status, same message, no cookie.
pub proof fn law_login_refusals_look_alike(
    config: AuthConfig,
    now: i64,
    user: UserRecord,
    password: Seq<char>,
    unknown: ReplyView,
    wrong: ReplyView,
)
    requires
        !credential_matches(user.password@, password),
        login_outcome(config, now, Lookup::Missing, password, unknown),
        login_outcome(config, now, Lookup::Found(user), password, wrong),
    ensures
        unknown == wrong,
        unknown.status == Status::Unauthorized,
        unknown.cookies.len() == 0,
{
}

/// A login with the right password succeeds: where the user is known, the
/// password matches and both lifetimes fit, the reply has the status 200 and
/// two cookies, first `auth` with an access token, then `refresh` with a
/// refresh token, and both tokens verify at once to that user.
pub proof fn law_login_succeeds(
    config: AuthConfig,
    now: i64,
    user: UserRecord,
    password: Seq<char>,
    reply: ReplyView,
)
    requires
        login_outcome(config, now, Lookup::Found(user), password, reply),
        credential_matches(user.password@, password),
        lifetime_fits(now, config.access_ttl_secs),
        lifetime_fits(now, config.refresh_ttl_secs),
    ensures
        reply.status == Status::Success,
        reply.body == BodyView::Text("Connexion réussie."@),
        reply.cookies.len() == 2,
        exists|a: Seq<char>, r: Seq<char>|
            #![trigger auth_cookie_text(config, a), refresh_cookie_text(config, r)]
            {
                &&& reply.cookies[0] == auth_cookie_text(config, a)
                &&& reply.cookies[1] == refresh_cookie_text(config, r)
                &&& verification(TokenKind::Access, a, config.access_secret@, now) == Ok::<
                    Claims,
                    TokenError,
                >(
                    Claims {
                        sub: user.id,
                        iat: now,
                        exp: (now + config.access_ttl_secs) as i64,
                    },
                )
                &&& verification(TokenKind::Refresh, r, config.refresh_secret@, now) == Ok::<
                    Claims,
                    TokenError,
                >(
                    Claims {
                        sub: user.id,
                        iat: now,
                        exp: (now + config.refresh_ttl_secs) as i64,
                    },
                )
            },
{
    let (access, refresh) = choose|
        access: Result<String, TokenError>,
        refresh: Result<String, TokenError>,
    |
        #![trigger login_view(config, access, refresh)]
        {
            &&& issued(
                TokenKind::Access,
                config.access_secret@,
                config.access_ttl_secs,
                user.id,
                now,
                access,
            )
            &&& issued(
                TokenKind::Refresh,
                config.refresh_secret@,
                config.refresh_ttl_secs,
                user.id,
                now,
                refresh,
            )
            &&& reply == login_view(config, access, refresh)
        };
    let a = access->Ok_0@;
    let r = refresh->Ok_0@;
    assert(reply.cookies[0] == auth_cookie_text(config, a));
    assert(reply.cookies[1] == refresh_cookie_text(config, r));
}

/// A login succeeds only for a known user whose password matches, and then
/// sets two cookies: first `auth`, then `refresh`.
pub proof fn law_login_sets_both_cookies(
    config: AuthConfig,
    now: i64,
    row: Lookup<UserRecord>,
    password: Seq<char>,
    reply: ReplyView,
)
    requires
        login_outcome(config, now, row, password, reply),
        reply.status == Status::Success,
    ensures
        row is Found,
        credential_matches(row->Found_0.password@, password),
        reply.cookies.len() == 2,
        "auth="@.is_prefix_of(reply.cookies[0]),
        "refresh="@.is_prefix_of(reply.cookies[1]),
{
    reveal_strlit("auth=");
    reveal_strlit("auth");
    reveal_strlit("refresh=");
    reveal_strlit("refresh");
    reveal_strlit("=");
    assert("auth="@ =~= "auth"@ + "="@);
    assert("refresh="@ =~= "refresh"@ + "="@);
    let first = reply.cookies[0];
    let second = reply.cookies[1];
    assert("auth="@ =~= first.subrange(0, 5));
    assert("refresh="@ =~= second.subrange(0, 8));
}

/// A refresh with a valid refresh token succeeds: where the token that the
/// request presents verifies and the access lifetime fits, the reply has the
/// status 200 and one cookie, `auth`, with an access token that verifies at
/// once to the subject of the refresh token. No refresh cookie is set.
pub proof fn law_refresh_succeeds(
    config: AuthConfig,
    now: i64,
    headers: RequestHeaders,
    reply: ReplyView,
)
    requires
        refresh_outcome(config, now, headers, reply),
        refresh_candidate(headers) is Some,
        verification(
            TokenKind::Refresh,
            refresh_candidate(headers)->Some_0,
            config.refresh_secret@,
            now,
        ) is Ok,
        lifetime_fits(now, config.access_ttl_secs),
    ensures
        reply.status == Status::Success,
        reply.body == BodyView::Text("Token régénéré."@),
        reply.cookies.len() == 1,
        exists|a: Seq<char>|
            #![trigger auth_cookie_text(config, a)]
            {
                &&& reply.cookies[0] == auth_cookie_text(config, a)
                &&& verification(TokenKind::Access, a, config.access_secret@, now) == Ok::<
                    Claims,
                    TokenError,
                >(
                    Claims {
                        sub: verification(
                            TokenKind::Refresh,
                            refresh_candidate(headers)->Some_0,
                            config.refresh_secret@,
                            now,
                        )->Ok_0.sub,
                        iat: now,
                        exp: (now + config.access_ttl_secs) as i64,
                    },
                )
            },
{
    let subject = verification(
        TokenKind::Refresh,
        refresh_candidate(headers)->Some_0,
        config.refresh_secret@,
        now,
    )->Ok_0.sub;
    let access = choose|access: Result<String, TokenError>|
        #![trigger refresh_view(config, access)]
        {
            &&& issued(
                TokenKind::Access,
                config.access_secret@,
                config.access_ttl_secs,
                subject,
                now,
                access,
            )
            &&& reply == refresh_view(config, access)
        };
    let a = access->Ok_0@;
    assert(reply.cookies[0] == auth_cookie_text(config, a));
}

/// A refresh succeeds only for a refresh token that verifies, and then sets
/// one cookie, `auth`; a token that verifies is refused never, and answered
/// with an internal fault only where the access lifetime does not fit;
/// whatever else is presented is refused under the status 401.
pub proof fn law_refresh_sets_auth_cookie(
    config: AuthConfig,
    now: i64,
    headers: RequestHeaders,
    reply: ReplyView,
)
    requires
        refresh_outcome(config, now, headers, reply),
    ensures
        reply.status == Status::Success ==> {
            &&& refresh_candidate(headers) is Some
            &&& verification(
                TokenKind::Refresh,
                refresh_candidate(headers)->Some_0,
                config.refresh_secret@,
                now,
            ) is Ok
            &&& reply.cookies.len() == 1
            &&& "auth="@.is_prefix_of(reply.cookies[0])
        },
        refresh_candidate(headers) is Some && verification(
            TokenKind::Refresh,
            refresh_candidate(headers)->Some_0,
            config.refresh_secret@,
            now,
        ) is Ok ==> reply.status == (if lifetime_fits(now, config.access_ttl_secs) {
            Status::Success
        } else {
            Status::InternalServerError
        }),
        refresh_candidate(headers) is None || verification(
            TokenKind::Refresh,
            refresh_candidate(headers)->Some_0,
            config.refresh_secret@,
            now,
        ) is Err ==> reply.status == Status::Unauthorized,
{
    reveal_strlit("auth=");
    reveal_strlit("auth");
    reveal_strlit("=");
    assert("auth="@ =~= "auth"@ + "="@);
    if reply.status == Status::Success {
        let first = reply.cookies[0];
        assert("auth="@ =~= first.subrange(0, 5));
    }
}

/// What was issued refreshes: a refresh token that was issued for a user and
/// is presented as the bearer token, or, without a bearer token, first in the
/// `Cookie` header as `refresh`, buys an access token for that same user,
/// from the moment of issue until just before the refresh token expires.
pub proof fn law_issued_refresh_token_refreshes(
    config: AuthConfig,
    headers: RequestHeaders,
    rest: Seq<char>,
    subject: UserId,
    issued_at: i64,
    token: Result<String, TokenError>,
    now: i64,
    reply: ReplyView,
)
    requires
        issued(
            TokenKind::Refresh,
            config.refresh_secret@,
            config.refresh_ttl_secs,
            subject,
            issued_at,
            token,
        ),
        token is Ok,
        issued_at <= now < issued_at + config.refresh_ttl_secs,
        ({
            ||| headers.authorization matches Some(value) && value@ == "Bearer "@ + token->Ok_0@
            ||| {
                &&& bearer_token(headers) is None
                &&& headers.cookie matches Some(cookie) && cookie@ == "refresh="@ + token->Ok_0@
                    + rest
                &&& rest.len() == 0 || rest[0] == ';'
            }
        }),
        refresh_outcome(config, now, headers, reply),
    ensures
        exists|access: Result<String, TokenError>|
            #![trigger refresh_view(config, access)]
            {
                &&& issued(
                    TokenKind::Access,
                    config.access_secret@,
                    config.access_ttl_secs,
                    subject,
                    now,
                    access,
                )
                &&& reply == refresh_view(config, access)
            },
        lifetime_fits(now, config.access_ttl_secs) ==> reply.status == Status::Success
            && reply.cookies.len() == 1,
{
    let text = token->Ok_0@;
    if headers.authorization matches Some(value) && value@ == "Bearer "@ + text {
        law_bearer_reads_back(text);
    } else {
        reveal_strlit("refresh");
        reveal_strlit("refresh=");
        assert("refresh="@ =~= "refresh"@.push('='));
        lemma_token_has_no_breaks(text);
        law_cookie_reads_back("refresh"@, text, rest);
    }
    assert(refresh_candidate(headers) == Some(text));
    law_fresh_token_verifies(
        TokenKind::Refresh,
        text,
        config.refresh_secret@,
        subject,
        issued_at,
        config.refresh_ttl_secs,
        now,
    );
}

/// Outside production, a request for a password reset for a known user is
/// answered with the token itself: where the reset lifetime fits, the reply
/// has the status 202 and a reset token in its body that verifies at once to
/// that user. In production, and for an unknown user, the reply is the
/// generic one.
pub proof fn law_reset_request_hands_out_token(
    config: AuthConfig,
    now: i64,
    row: Lookup<UserId>,
    reply: ReplyView,
)
    requires
        reset_request_outcome(config, now, row, reply),
    ensures
        reply.status == Status::Accepted,
        reply.cookies.len() == 0,
        row is Found && !config.production && lifetime_fits(now, RESET_TTL_SECS) ==> (reply.body
            matches BodyView::ResetToken(token) && verification(
            TokenKind::Reset,
            token,
            config.access_secret@,
            now,
        ) == Ok::<Claims, TokenError>(
            Claims { sub: row->Found_0, iat: now, exp: (now + RESET_TTL_SECS) as i64 },
        )),
        !(row is Found) || config.production ==> reply == reset_accepted(),
{
}

/// A password reset is confirmed only by a token that verifies as a reset
/// token and with a new password of eight characters or more; the credential
/// that is then handed out to be stored is one that the new password
/// satisfies, and it is for the token's subject. In every other case nothing
/// is handed out to be stored.
pub proof fn law_reset_stores_what_verifies(
    config: AuthConfig,
    now: i64,
    token: Seq<char>,
    new_password: Seq<char>,
    step: StepView,
)
    requires
        confirm_reset_outcome(config, now, token, new_password, step),
    ensures
        step matches StepView::Store { user, credential } ==> {
            &&& verification(TokenKind::Reset, token, config.access_secret@, now) is Ok
            &&& verification(TokenKind::Reset, token, config.access_secret@, now)->Ok_0.sub == user
            &&& new_password.len() >= MIN_PASSWORD_CHARS
            &&& credential_matches(credential, new_password)
        },
        new_password.len() < MIN_PASSWORD_CHARS ==> (step matches StepView::Answer(reply)
            && reply.status == Status::BadRequest),
{
}

fn text_reply(status: Status, text: &str) -> (reply: Reply)
    ensures
        reply@ == plain(status, text@),
{
    let reply = Reply { status, body: Body::Text(text.to_owned()), cookies: Vec::new() };
    assert(reply@.cookies =~= Seq::empty());
    reply
}

fn internal_reply() -> (reply: Reply)
    ensures
        reply@ == internal_fault(),
{
    text_reply(Status::InternalServerError, "Erreur interne")
}

/// Assembles the reply to a login whose password matched.
pub fn login_reply(
    config: &AuthConfig,
    access: Result<String, TokenError>,
    refresh: Result<String, TokenError>,
) -> (reply: Reply)
    ensures
        reply@ == login_view(*config, access, refresh),
{
    match (access, refresh) {
        (Ok(a), Ok(r)) => {
            let mut cookies: Vec<String> = Vec::new();
            cookies.push(auth_cookie(config, a.as_str()));
            cookies.push(refresh_cookie(config, r.as_str()));
            let reply = Reply {
                status: Status::Success,
                body: Body::Text("Connexion réussie.".to_owned()),
                cookies,
            };
            assert(reply@.cookies =~= seq![
                auth_cookie_text(*config, a@),
                refresh_cookie_text(*config, r@),
            ]);
            reply
        },
        _ => internal_reply(),
    }
}

/// Answers a login, given what the store holds under the name or address
/// that the request gave. An unknown user and a wrong password are refused
/// alike, so that the reply does not tell which names exist.
pub fn login_user(config: &AuthConfig, now: i64, row: Lookup<UserRecord>, payload: &LoginUser) -> (reply:
    Reply)
    ensures
        login_outcome(*config, now, row, payload.password@, reply@),
{
    match row {
        Lookup::Failed => internal_reply(),
        Lookup::Missing => text_reply(Status::Unauthorized, "Identifiants invalides"),
        Lookup::Found(user) => {
            if !verify_password(user.password.as_str(), payload.password.as_str()) {
                return text_reply(Status::Unauthorized, "Identifiants invalides");
            }
            let access = generate_access_token(config, user.id, now);
            let refresh = generate_refresh_token(config, user.id, now);
            let ghost witness = (access, refresh);
            let reply = login_reply(config, access, refresh);
            assert(reply@ == login_view(*config, witness.0, witness.1));
            reply
        },
    }
}

/// Assembles the reply to a refresh whose token verified.
pub fn refresh_reply(config: &AuthConfig, access: Result<String, TokenError>) -> (reply: Reply)
    ensures
        reply@ == refresh_view(*config, access),
{
    match access {
        Ok(a) => {
            let mut cookies: Vec<String> = Vec::new();
            cookies.push(auth_cookie(config, a.as_str()));
            let reply = Reply {
                status: Status::Success,
                body: Body::Text("Token régénéré.".to_owned()),
                cookies,
            };
            assert(reply@.cookies =~= seq![auth_cookie_text(*config, a@)]);
            reply
        },
        Err(_) => internal_reply(),
    }
}

/// Answers a refresh: a valid refresh token, as bearer or as the cookie
/// `refresh`, buys a new access token. The refresh token itself stays as it
/// is.
pub fn refresh_token(config: &AuthConfig, now: i64, headers: &RequestHeaders) -> (reply: Reply)
    ensures
        refresh_outcome(*config, now, *headers, reply@),
{
    let token = match refresh_token_of(headers) {
        Some(token) => token,
        None => {
            return text_reply(Status::Unauthorized, "Refresh token requis");
        },
    };
    let claims = match verify_refresh(config, token.as_str(), now) {
        Ok(claims) => claims,
        Err(_) => {
            return text_reply(Status::Unauthorized, "Refresh token invalide");
        },
    };
    let access = generate_access_token(config, claims.sub, now);
    let ghost witness = access;
    let reply = refresh_reply(config, access);
    assert(reply@ == refresh_view(*config, witness));
    reply
}

/// Answers a logout: always a success, with the two cookies that make the
/// client discard its tokens. Nothing is revoked on the server.
pub fn logout_user(config: &AuthConfig) -> (reply: Reply)
    ensures
        reply@ == logout_view(*config),
{
    let mut cookies: Vec<String> = Vec::new();
    cookies.push(expired_auth_cookie(config));
    cookies.push(expired_refresh_cookie(config));
    let reply = Reply {
        status: Status::Success,
        body: Body::Text("Déconnecté.".to_owned()),
        cookies,
    };
    assert(reply@.cookies =~= seq![
        expired_auth_cookie_text(*config),
        expired_refresh_cookie_text(*config),
    ]);
    reply
}

/// Answers a request for the profile of the user that the request was
/// resolved to, given what the store holds of that user.
pub fn me(row: Lookup<UserProfile>) -> (reply: Reply)
    ensures
        reply@ == me_view(row),
{
    match row {
        Lookup::Found(profile) => {
            let reply = Reply {
                status: Status::Success,
                body: Body::Profile(profile),
                cookies: Vec::new(),
            };
            assert(reply@.cookies =~= Seq::empty());
            reply
        },
        Lookup::Missing => text_reply(Status::NotFound, "Utilisateur introuvable"),
        Lookup::Failed => internal_reply(),
    }
}

/// The step that follows hashing a new password for `user`.
pub fn store_step(user: UserId, credential: Result<String, HashError>) -> (step: PasswordStep)
    ensures
        step@ == store_view(user, credential),
{
    match credential {
        Ok(c) => PasswordStep::Store { user, credential: c },
        Err(_) => PasswordStep::Answer(internal_reply()),
    }
}

/// Decides a password change for the resolved user, given the credential
/// that the store holds: the current password has to match, then the new
/// one is hashed and handed out to be stored. Tokens issued before stay
/// valid.
pub fn change_password(user: CurrentUser, row: Lookup<String>, payload: &ChangePasswordPayload) -> (step:
    PasswordStep)
    ensures
        change_password_outcome(
            user.0,
            row,
            payload.current_password@,
            payload.new_password@,
            step@,
        ),
{
    match row {
        Lookup::Failed => PasswordStep::Answer(internal_reply()),
        Lookup::Missing => PasswordStep::Answer(
            text_reply(Status::NotFound, "Utilisateur introuvable"),
        ),
        Lookup::Found(stored) => {
            if !verify_password(stored.as_str(), payload.current_password.as_str()) {
                return PasswordStep::Answer(
                    text_reply(Status::Unauthorized, "Mot de passe actuel incorrect"),
                );
            }
            let credential = hash_password(payload.new_password.as_str());
            let ghost witness = credential;
            let step = store_step(user.0, credential);
            assert(step@ == store_view(user.0, witness));
            step
        },
    }
}

/// Answers a password change once the store has answered to the write.
pub fn password_changed(outcome: Written) -> (reply: Reply)
    ensures
        reply@ == stored_view(outcome, "Mot de passe mis à jour"@),
{
    match outcome {
        Written::Done => text_reply(Status::Success, "Mot de passe mis à jour"),
        Written::Failed => internal_reply(),
    }
}

/// Assembles the reply to a request for a password reset outside
/// production.
pub fn reset_request_reply(token: Result<String, TokenError>) -> (reply: Reply)
    ensures
        reply@ == reset_request_view(token),
{
    let body = match token {
        Ok(t) => Body::ResetToken(t),
        Err(_) => Body::StatusOk,
    };
    let reply = Reply { status: Status::Accepted, body, cookies: Vec::new() };
    assert(reply@.cookies =~= Seq::empty());
    reply
}

/// Answers a request for a password reset, given whom the store found under
/// the name or address that the request gave. The status is the same whether
/// or not there is such a user; the token itself is in the reply only outside
/// production.
pub fn request_password_reset(config: &AuthConfig, now: i64, row: Lookup<UserId>) -> (reply: Reply)
    ensures
        reset_request_outcome(*config, now, row, reply@),
        reply@.status == Status::Accepted,
        reply@.cookies == Seq::<Seq<char>>::empty(),
{
    match row {
        Lookup::Found(user) => {
            if config.production {
                return reset_request_reply(Err(TokenError::Rejected));
            }
            let token = generate_reset_token(config, user, now);
            let ghost witness = token;
            let reply = reset_request_reply(token);
            assert(reply@ == reset_request_view(witness));
            reply
        },
        _ => reset_request_reply(Err(TokenError::Rejected)),
    }
}

/// Decides the confirmation of a password reset: the token has to verify as
/// a reset token, the new password has to have eight characters or more,
/// then the new password is hashed and handed out to be stored for the
/// token's subject.
pub fn confirm_password_reset(config: &AuthConfig, now: i64, payload: &ConfirmPasswordResetPayload) -> (step:
    PasswordStep)
    ensures
        confirm_reset_outcome(*config, now, payload.token@, payload.new_password@, step@),
{
    let claims = match verify_reset(config, payload.token.as_str(), now) {
        Ok(claims) => claims,
        Err(_) => {
            return PasswordStep::Answer(
                text_reply(Status::BadRequest, "Token invalide ou expiré"),
            );
        },
    };
    if payload.new_password.as_str().unicode_len() < MIN_PASSWORD_CHARS {
        return PasswordStep::Answer(text_reply(Status::BadRequest, "Mot de passe trop court"));
    }
    let credential = hash_password(payload.new_password.as_str());
    let ghost witness = credential;
    let step = store_step(claims.sub, credential);
    assert(step@ == store_view(claims.sub, witness));
    step
}

/// Answers the confirmation of a password reset once the store has answered
/// to the write.
pub fn password_reset(outcome: Written) -> (reply: Reply)
    ensures
        reply@ == stored_view(outcome, "Mot de passe réinitialisé"@),
{
    match outcome {
        Written::Done => text_reply(Status::Success, "Mot de passe réinitialisé"),
        Written::Failed => internal_reply(),
    }
}

} // verus!
