//! The signed-token boundary: JSON claim objects, HS256 signing and checking,
//! and the text form of user identifiers. Everything here is believed, not
//! proved; the token rules built on top of it are in `token`.

use vstd::prelude::*;
use vstd::arithmetic::power::pow;
use jsonwebtoken::{decode, encode, DecodingKey, EncodingKey, Header, Validation};

verus! {

/// A JSON value of serde_json, opaque here.
#[verifier::external_type_specification]
#[verifier::external_body]
pub struct ExJsonValue(serde_json::Value);

/// The map type of serde_json, opaque here: what it holds is spoken of
/// through `object_texts`, `object_ints` and `object_others`.
#[verifier::external_type_specification]
#[verifier::external_body]
#[verifier::reject_recursive_types(K)]
#[verifier::reject_recursive_types(V)]
pub struct ExJsonMap<K, V>(serde_json::Map<K, V>);

/// The error type of jsonwebtoken, opaque here.
#[verifier::external_type_specification]
#[verifier::external_body]
pub struct ExJwtError(jsonwebtoken::errors::Error);

/// A JSON object as the token codec reads and writes it.
pub type JsonObject = serde_json::Map<String, serde_json::Value>;

/// The members of a JSON object whose value is a string.
pub uninterp spec fn object_texts(object: JsonObject) -> Map<Seq<char>, Seq<char>>;

/// The members of a JSON object whose value is an integer of 64 bits.
pub uninterp spec fn object_ints(object: JsonObject) -> Map<Seq<char>, i64>;

/// The names of the members of a JSON object whose value is neither a string
/// nor an integer of 64 bits.
pub uninterp spec fn object_others(object: JsonObject) -> Set<Seq<char>>;

/// The string and integer members of the claims object that `token` carries,
/// where `token` is a well-formed HS256 token whose signature `secret`
/// confirms.
pub uninterp spec fn signed_claims(token: Seq<char>, secret: Seq<char>) -> Option<
    (Map<Seq<char>, Seq<char>>, Map<Seq<char>, i64>),
>;

/// Whether `c` may occur in a token: a letter, a digit, `-`, `_` or `.`.
pub open spec fn is_token_char(c: char) -> bool {
    let n = c as u32;
    (0x30 <= n <= 0x39) || (0x41 <= n <= 0x5A) || (0x61 <= n <= 0x7A) || n == 0x2D || n == 0x5F
        || n == 0x2E
}

/// Whether `token` is made as tokens are: not empty, and of token characters
/// only.
pub open spec fn token_text(token: Seq<char>) -> bool {
    token.len() > 0 && forall|i: int| 0 <= i < token.len() ==> is_token_char(#[trigger] token[i])
}

/// The 128-bit value of the identifier that `text` spells, in any of the
/// forms that the identifier parser reads.
pub uninterp spec fn uuid_value(text: Seq<char>) -> Option<u128>;

/// No string members.
pub open spec fn no_texts() -> Map<Seq<char>, Seq<char>> {
    Map::empty()
}

/// No integer members.
pub open spec fn no_ints() -> Map<Seq<char>, i64> {
    Map::empty()
}

/// No members of another kind.
pub open spec fn no_others() -> Set<Seq<char>> {
    Set::empty()
}

/// The lower-case hexadecimal digit of `n`.
pub open spec fn hex_char(n: int) -> char {
    seq!['0', '1', '2', '3', '4', '5', '6', '7', '8', '9', 'a', 'b', 'c', 'd', 'e', 'f'][n]
}

/// The 32 hexadecimal digits of `id`, most significant first.
pub open spec fn uuid_hex(id: u128) -> Seq<char> {
    Seq::new(32, |k: int| hex_char((id as int / pow(16, (31 - k) as nat)) % 16))
}

/// The hyphenated form of `id`: its digits in groups of 8, 4, 4, 4 and 12.
pub open spec fn uuid_text(id: u128) -> Seq<char> {
    let h = uuid_hex(id);
    h.subrange(0, 8) + seq!['-'] + h.subrange(8, 12) + seq!['-'] + h.subrange(12, 16) + seq!['-']
        + h.subrange(16, 20) + seq!['-'] + h.subrange(20, 32)
}

/// `Map::new` of serde_json: an object without members.
#[verifier::external_body]
pub(crate) fn object_new() -> (object: JsonObject)
    ensures
        object_texts(object) == no_texts(),
        object_ints(object) == no_ints(),
        object_others(object) == no_others(),
{
    serde_json::Map::new()
}

/// `Map::insert` of serde_json with a string value: the member `key` becomes
/// that string, whatever it was, and no other member changes.
#[verifier::external_body]
pub(crate) fn object_put_text(object: &mut JsonObject, key: &str, value: &str)
    ensures
        object_texts(*final(object)) == object_texts(*old(object)).insert(key@, value@),
        object_ints(*final(object)) == object_ints(*old(object)).remove(key@),
        object_others(*final(object)) == object_others(*old(object)).remove(key@),
{
    object.insert(key.to_string(), serde_json::Value::String(value.to_string()));
}

/// `Map::insert` of serde_json with an integer value: the member `key` becomes
/// that integer, whatever it was, and no other member changes.
#[verifier::external_body]
pub(crate) fn object_put_int(object: &mut JsonObject, key: &str, value: i64)
    ensures
        object_ints(*final(object)) == object_ints(*old(object)).insert(key@, value),
        object_texts(*final(object)) == object_texts(*old(object)).remove(key@),
        object_others(*final(object)) == object_others(*old(object)).remove(key@),
{
    object.insert(key.to_string(), serde_json::Value::from(value));
}

/// `Map::get` of serde_json, then `Value::as_str`: the member `key` where it
/// is there and is a string.
#[verifier::external_body]
pub(crate) fn object_text(object: &JsonObject, key: &str) -> (r: Option<String>)
    ensures
        r is Some <==> object_texts(*object).contains_key(key@),
        r matches Some(s) ==> s@ == object_texts(*object)[key@],
{
    object.get(key).and_then(|v| v.as_str()).map(|s| s.to_string())
}

/// `Map::get` of serde_json, then `Value::as_i64`: the member `key` where it
/// is there and is an integer that fits 64 bits.
#[verifier::external_body]
pub(crate) fn object_int(object: &JsonObject, key: &str) -> (r: Option<i64>)
    ensures
        r == (if object_ints(*object).contains_key(key@) {
            Some(object_ints(*object)[key@])
        } else {
            None
        }),
{
    object.get(key).and_then(|v| v.as_i64())
}

/// `jsonwebtoken::encode` with the default header (HS256) and `secret` as the
/// key, on an object whose members are strings and 64-bit integers only.
/// Trusted: it succeeds (header and key are both of the HMAC family, such an
/// object always serialises, and HMAC signing does not fail); the token is
/// three runs of URL-safe Base64 without padding, joined by dots; and
/// `jwt_decode` reads it back under the same secret, with the members it was
/// made from. Members of another kind are left out by `requires`: the
/// decoder's second pass over the payload stumbles on an array or an object
/// under `exp`, `nbf` or `sub`.
#[verifier::external_body]
pub(crate) fn jwt_encode(claims: &JsonObject, secret: &str) -> (r: Result<
    String,
    jsonwebtoken::errors::Error,
>)
    requires
        object_others(*claims) == no_others(),
    ensures
        r is Ok,
        r matches Ok(token) ==> token_text(token@),
        r matches Ok(token) ==> signed_claims(token@, secret@) == Some(
            (object_texts(*claims), object_ints(*claims)),
        ),
{
    encode(&Header::default(), claims, &EncodingKey::from_secret(secret.as_bytes()))
}

/// `jsonwebtoken::decode` into a JSON object, with `secret` as the key, HS256
/// as the only algorithm, and the crate's own checks of claims switched off:
/// what is left is the token's shape, its signature and its payload being a
/// JSON object. Trusted: the result depends on token and secret alone.
#[verifier::external_body]
pub(crate) fn jwt_decode(token: &str, secret: &str) -> (r: Result<
    JsonObject,
    jsonwebtoken::errors::Error,
>)
    ensures
        r is Ok <==> signed_claims(token@, secret@) is Some,
        r matches Ok(object) ==> signed_claims(token@, secret@) == Some(
            (object_texts(object), object_ints(object)),
        ),
{
    let mut validation = Validation::default();
    validation.validate_exp = false;
    validation.validate_aud = false;
    validation.required_spec_claims.clear();
    let key = DecodingKey::from_secret(secret.as_bytes());
    decode::<JsonObject>(token, &key, &validation).map(|data| data.claims)
}

/// `Uuid::from_u128`, then its `Display`: the hyphenated lower-case form.
/// Trusted besides: `Uuid::parse_str` reads that form back to the same value.
#[verifier::external_body]
pub(crate) fn uuid_string(id: u128) -> (s: String)
    ensures
        s@ == uuid_text(id),
        uuid_value(s@) == Some(id),
{
    uuid::Uuid::from_u128(id).to_string()
}

/// `Uuid::parse_str`, then `Uuid::as_u128`.
#[verifier::external_body]
pub(crate) fn uuid_parse(text: &str) -> (r: Option<u128>)
    ensures
        r == uuid_value(text@),
{
    uuid::Uuid::parse_str(text).ok().map(|u| u.as_u128())
}

} // verus!
