//! Credential extractor: pulls a bearer token or a named cookie out of the
//! request headers, in a fixed order of precedence.

use vstd::prelude::*;
use crate::jwt::{is_token_char, token_text};
use crate::text::{
    chars_of, find_from, index_of, is_space, lemma_index_of, lemma_index_of_is, lemma_trimmed_is,
    strip_prefix, text_of, trim_window, trimmed, window_has_prefix,
};

verus! {

/// What the core reads of a request: the values of its `Authorization` and
/// `Cookie` headers, where the request has them and they are text.
#[derive(Clone, Debug)]
pub struct RequestHeaders {
    pub authorization: Option<String>,
    pub cookie: Option<String>,
}

/// The token of an `Authorization` value: what follows `Bearer `.
pub open spec fn bearer_of(value: Seq<char>) -> Option<Seq<char>> {
    strip_prefix(value, "Bearer "@)
}

/// The value of the cookie `name` in one `;`-separated part of a `Cookie`
/// header: what follows `name=` in the part once it is trimmed.
pub open spec fn cookie_in_part(part: Seq<char>, name: Seq<char>) -> Option<Seq<char>> {
    strip_prefix(trimmed(part), name.push('='))
}

/// The value of the cookie `name` in a `Cookie` header: that of the first
/// part that holds one.
pub open spec fn cookie_of(header: Seq<char>, name: Seq<char>) -> Option<Seq<char>>
    decreases header.len(),
{
    let end = index_of(header, ';');
    match cookie_in_part(header.take(end), name) {
        Some(value) => Some(value),
        None => if end < header.len() {
            proof {
                lemma_index_of(header, ';');
            }
            cookie_of(header.skip(end + 1), name)
        } else {
            None
        },
    }
}

/// The bearer token of a request.
pub open spec fn bearer_token(headers: RequestHeaders) -> Option<Seq<char>> {
    match headers.authorization {
        Some(value) => bearer_of(value@),
        None => None,
    }
}

/// The value of the cookie `name` of a request.
pub open spec fn cookie_token(headers: RequestHeaders, name: Seq<char>) -> Option<Seq<char>> {
    match headers.cookie {
        Some(value) => cookie_of(value@, name),
        None => None,
    }
}

/// The access token that a request presents: the cookie `auth` where there is
/// one, else the bearer token.
pub open spec fn access_candidate(headers: RequestHeaders) -> Option<Seq<char>> {
    match cookie_token(headers, "auth"@) {
        Some(token) => Some(token),
        None => bearer_token(headers),
    }
}

/// The refresh token that a request presents: the bearer token where there
/// is one, else the cookie `refresh`.
pub open spec fn refresh_candidate(headers: RequestHeaders) -> Option<Seq<char>> {
    match bearer_token(headers) {
        Some(token) => Some(token),
        None => cookie_token(headers, "refresh"@),
    }
}

/// A token holds neither a `;` nor whitespace.
pub proof fn lemma_token_has_no_breaks(token: Seq<char>)
    requires
        token_text(token),
    ensures
        forall|i: int| 0 <= i < token.len() ==> token[i] != ';' && !is_space(#[trigger] token[i]),
{
    assert forall|i: int| 0 <= i < token.len() implies token[i] != ';' && !is_space(
        #[trigger] token[i],
    ) by {
        assert(is_token_char(token[i]));
    }
}

/// What is sent as a bearer token is read back as it was sent.
pub proof fn law_bearer_reads_back(token: Seq<char>)
    ensures
        bearer_of("Bearer "@ + token) == Some(token),
{
    let prefix = "Bearer "@;
    let value = prefix + token;
    assert(prefix =~= value.subrange(0, prefix.len() as int));
    assert(value.skip(prefix.len() as int) =~= token);
}

/// A cookie reads back: a `Cookie` header that starts with `name=value`,
/// where neither holds a `;` and the pair neither starts nor ends with
/// whitespace, gives `value` for `name`, whatever parts follow.
pub proof fn law_cookie_reads_back(name: Seq<char>, value: Seq<char>, rest: Seq<char>)
    requires
        forall|i: int| 0 <= i < name.len() ==> name[i] != ';',
        forall|i: int| 0 <= i < value.len() ==> value[i] != ';',
        name.len() > 0 ==> !is_space(name[0]),
        value.len() > 0 ==> !is_space(value.last()),
        rest.len() == 0 || rest[0] == ';',
    ensures
        cookie_of(name.push('=') + value + rest, name) == Some(value),
{
    let pair = name.push('=') + value;
    let header = pair + rest;
    assert forall|i: int| 0 <= i < pair.len() implies header[i] != ';' by {
        if i < name.len() {
            assert(header[i] == name[i]);
        } else if i == name.len() {
            assert(header[i] == '=');
        } else {
            assert(header[i] == value[i - name.len() - 1]);
        }
    }
    if rest.len() > 0 {
        assert(header[pair.len() as int] == rest[0]);
    }
    lemma_index_of_is(header, ';', pair.len() as int);
    assert(header.take(pair.len() as int) =~= pair);
    assert(pair[0] == (if name.len() > 0 { name[0] } else { '=' }));
    assert(pair.last() == (if value.len() > 0 { value.last() } else { '=' }));
    lemma_trimmed_is(pair);
    assert(name.push('=') =~= pair.subrange(0, name.len() as int + 1));
    assert(pair.skip(name.len() as int + 1) =~= value);
}

/// The token of an `Authorization` value.
pub fn bearer_value(value: &str) -> (r: Option<String>)
    ensures
        text_of(r) == bearer_of(value@),
{
    let v = chars_of(value);
    let prefix = chars_of("Bearer ");
    assert(v@.subrange(0, v@.len() as int) =~= v@);
    if window_has_prefix(&v, 0, v.len(), &prefix) {
        assert(v@.skip(prefix@.len() as int) =~= v@.subrange(
            prefix@.len() as int,
            v@.len() as int,
        ));
        Some(value.substring_char(prefix.len(), v.len()).to_owned())
    } else {
        None
    }
}

/// The value of the cookie `name` in a `Cookie` header.
pub fn cookie_value(header: &str, name: &str) -> (r: Option<String>)
    ensures
        text_of(r) == cookie_of(header@, name@),
{
    let h = chars_of(header);
    let mut wanted = chars_of(name);
    wanted.push('=');
    let n = h.len();
    let mut pos: usize = 0;
    assert(h@.skip(0) =~= h@);
    loop
        invariant
            pos <= n,
            n == h.len(),
            h@ == header@,
            wanted@ == name@.push('='),
            cookie_of(h@, name@) == cookie_of(h@.skip(pos as int), name@),
        decreases n - pos,
    {
        let end = find_from(&h, pos, ';');
        let (a, b) = trim_window(&h, pos, end);
        assert(h@.skip(pos as int).take(end - pos) =~= h@.subrange(pos as int, end as int));
        if window_has_prefix(&h, a, b, &wanted) {
            assert(h@.subrange(a as int, b as int).skip(wanted@.len() as int) =~= h@.subrange(
                a + wanted@.len(),
                b as int,
            ));
            return Some(header.substring_char(a + wanted.len(), b).to_owned());
        }
        if end >= n {
            return None;
        }
        assert(h@.skip(pos as int).skip(end - pos + 1) =~= h@.skip(end + 1));
        pos = end + 1;
    }
}

/// The bearer token of a request, if it has one.
pub fn get_bearer(headers: &RequestHeaders) -> (r: Option<String>)
    ensures
        text_of(r) == bearer_token(*headers),
{
    match &headers.authorization {
        Some(value) => bearer_value(value.as_str()),
        None => None,
    }
}

/// The value of the cookie `name` of a request, if it has one.
pub fn get_cookie(headers: &RequestHeaders, name: &str) -> (r: Option<String>)
    ensures
        text_of(r) == cookie_token(*headers, name@),
{
    match &headers.cookie {
        Some(value) => cookie_value(value.as_str(), name),
        None => None,
    }
}

/// The access token that a request presents, if any.
pub fn access_token_of(headers: &RequestHeaders) -> (r: Option<String>)
    ensures
        text_of(r) == access_candidate(*headers),
{
    match get_cookie(headers, "auth") {
        Some(token) => Some(token),
        None => get_bearer(headers),
    }
}

/// The refresh token that a request presents, if any.
pub fn refresh_token_of(headers: &RequestHeaders) -> (r: Option<String>)
    ensures
        text_of(r) == refresh_candidate(*headers),
{
    match get_bearer(headers) {
        Some(token) => Some(token),
        None => get_cookie(headers, "refresh"),
    }
}

} // verus!
