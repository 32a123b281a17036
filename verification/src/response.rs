//! Statuses and messages of replies, and the helpers that build the usual
//! ones.

use vstd::prelude::*;
use crate::jwt::{uuid_string, uuid_text};
use crate::text::{chars_of, is_space, strip_prefix, trim_window, trimmed, window_has_prefix};
use crate::token::UserId;

verus! {

/// The HTTP statuses that the service answers with.
#[derive(Clone, Copy, Debug, PartialEq, Eq, Structural)]
pub enum Status {
    Success,
    Created,
    Accepted,
    BadRequest,
    Unauthorized,
    NotFound,
    Conflict,
    InternalServerError,
}

/// What a handler returns: its answer, or a status with a message.
pub type ApiResult<T> = Result<T, (Status, String)>;

/// The number of a status.
pub open spec fn status_code(status: Status) -> u16 {
    match status {
        Status::Success => 200,
        Status::Created => 201,
        Status::Accepted => 202,
        Status::BadRequest => 400,
        Status::Unauthorized => 401,
        Status::NotFound => 404,
        Status::Conflict => 409,
        Status::InternalServerError => 500,
    }
}

impl Status {
    /// The number of this status.
    pub fn code(self) -> (code: u16)
        ensures
            code == status_code(self),
    {
        match self {
            Status::Success => 200,
            Status::Created => 201,
            Status::Accepted => 202,
            Status::BadRequest => 400,
            Status::Unauthorized => 401,
            Status::NotFound => 404,
            Status::Conflict => 409,
            Status::InternalServerError => 500,
        }
    }
}

/// A message as the client sees it: without the warning sign or the cross
/// mark that log lines start with, and trimmed.
pub open spec fn without_emoji_prefix(s: Seq<char>) -> Seq<char> {
    trimmed(
        match strip_prefix(s, "⚠️"@) {
            Some(rest) => rest,
            None => match strip_prefix(s, "❌"@) {
                Some(rest) => rest,
                None => s,
            },
        },
    )
}

/// A message that starts with neither of the two signs nor with whitespace,
/// and does not end with whitespace, is shown as it is.
pub proof fn lemma_plain_message(s: Seq<char>)
    requires
        s.len() > 0,
        !is_space(s[0]),
        !is_space(s.last()),
        s[0] != '\u{26a0}',
        s[0] != '\u{274c}',
    ensures
        without_emoji_prefix(s) == s,
{
    reveal_strlit("⚠️");
    reveal_strlit("❌");
    let warning = "⚠️"@;
    let cross = "❌"@;
    assert(warning[0] == '\u{26a0}');
    assert(cross[0] == '\u{274c}');
    if warning.is_prefix_of(s) {
        assert(s.subrange(0, warning.len() as int)[0] == s[0]);
    }
    if cross.is_prefix_of(s) {
        assert(s.subrange(0, cross.len() as int)[0] == s[0]);
    }
}

/// How a log line names the user: by identifier, or as not logged in.
pub open spec fn user_label(user: Option<UserId>) -> Seq<char> {
    match user {
        Some(id) => "| user: "@ + uuid_text(id.value),
        None => "| user non connecté"@,
    }
}

/// The label of the user on whose behalf a log line is written.
pub fn fmt_user(user: Option<UserId>) -> (label: String)
    ensures
        label@ == user_label(user),
{
    match user {
        Some(id) => {
            let text = uuid_string(id.value);
            "| user: ".to_owned().concat(text.as_str())
        },
        None => "| user non connecté".to_owned(),
    }
}

/// Strips the leading warning sign or cross mark of a message, and trims it.
pub fn strip_emoji_prefix(s: String) -> (r: String)
    ensures
        r@ == without_emoji_prefix(s@),
{
    let v = chars_of(s.as_str());
    let n = v.len();
    let warning = chars_of("⚠️");
    let cross = chars_of("❌");
    assert(v@.subrange(0, n as int) =~= v@);
    let start: usize = if window_has_prefix(&v, 0, n, &warning) {
        warning.len()
    } else if window_has_prefix(&v, 0, n, &cross) {
        cross.len()
    } else {
        0
    };
    assert(v@.subrange(start as int, n as int) =~= v@.skip(start as int));
    assert(v@.skip(0) =~= v@);
    let (a, b) = trim_window(&v, start, n);
    s.as_str().substring_char(a, b).to_owned()
}

/// An internal fault, under the status 500.
pub fn to_500(message: String) -> (r: (Status, String))
    ensures
        r.0 == Status::InternalServerError,
        r.1@ == without_emoji_prefix(message@),
{
    (Status::InternalServerError, strip_emoji_prefix(message))
}

/// Success, under the status 200.
pub fn ok(msg: &str) -> (r: ApiResult<(Status, String)>)
    ensures
        r is Ok,
        r->Ok_0.0 == Status::Success,
        r->Ok_0.1@ == msg@,
{
    Ok((Status::Success, msg.to_owned()))
}

/// Success in creating something, under the status 201.
pub fn created(msg: &str) -> (r: ApiResult<(Status, String)>)
    ensures
        r is Ok,
        r->Ok_0.0 == Status::Created,
        r->Ok_0.1@ == msg@,
{
    Ok((Status::Created, msg.to_owned()))
}

/// Something that is not there, under the status 404.
pub fn not_found(msg: &str) -> (r: (Status, String))
    ensures
        r.0 == Status::NotFound,
        r.1@ == without_emoji_prefix(msg@),
{
    (Status::NotFound, strip_emoji_prefix(msg.to_owned()))
}

/// A request without the right to what it asks, under the status 401.
pub fn unauthorized(msg: &str) -> (r: (Status, String))
    ensures
        r.0 == Status::Unauthorized,
        r.1@ == without_emoji_prefix(msg@),
{
    (Status::Unauthorized, strip_emoji_prefix(msg.to_owned()))
}

/// Something that is there already, under the status 409.
pub fn conflict(msg: &str) -> (r: (Status, String))
    ensures
        r.0 == Status::Conflict,
        r.1@ == without_emoji_prefix(msg@),
{
    (Status::Conflict, strip_emoji_prefix(msg.to_owned()))
}

/// An internal fault, under the status 500.
pub fn internal_server_error(msg: &str) -> (r: (Status, String))
    ensures
        r.0 == Status::InternalServerError,
        r.1@ == without_emoji_prefix(msg@),
{
    (Status::InternalServerError, strip_emoji_prefix(msg.to_owned()))
}

} // verus!
