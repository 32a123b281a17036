//! Password hasher: salted Argon2 credentials and their verification.

use vstd::prelude::*;
use argon2::password_hash::rand_core::OsRng;
use argon2::password_hash::{PasswordHash, PasswordHasher, PasswordVerifier, SaltString};
use argon2::Argon2;

verus! {

/// The error type of the password-hash crates, opaque here.
#[verifier::external_type_specification]
#[verifier::external_body]
pub struct ExPhcError(argon2::password_hash::Error);

/// The credential string that Argon2 with its default parameters derives from
/// a password and a salt in standard Base64 without padding, where it derives
/// one.
pub uninterp spec fn argon2_credential(password: Seq<char>, salt: Seq<char>) -> Option<Seq<char>>;

/// What checking a password against a credential string gives: `None` where
/// the string is no credential at all, else whether the password matches.
pub uninterp spec fn argon2_outcome(credential: Seq<char>, password: Seq<char>) -> Option<bool>;

/// Whether `credential` is a well-formed credential that `password` satisfies.
pub open spec fn credential_matches(credential: Seq<char>, password: Seq<char>) -> bool {
    argon2_outcome(credential, password) == Some(true)
}

/// Why no credential could be produced.
#[derive(Clone, Copy, Debug, PartialEq, Eq, Structural)]
pub enum HashError {
    /// The hashing library reported a fault.
    Internal,
}

/// `SaltString::generate` on the operating system's generator, as text: 16
/// random bytes in standard Base64 without padding. Trusted: the form of the
/// salt; nothing is claimed of which salt it is.
#[verifier::external_body]
fn fresh_salt() -> (salt: String)
    ensures
        fresh_salt_text(salt@),
{
    SaltString::generate(&mut OsRng).as_str().to_string()
}

/// `Argon2::default().hash_password` on the salt that `SaltString::from_b64`
/// reads from `salt`, rendered as a PHC string. Trusted: the result depends on
/// password and salt alone, and a credential that comes out of it is one that
/// `verify_password` of the same crate accepts for the same password (the
/// verifier recomputes the hash from the salt and parameters that the string
/// carries).
#[verifier::external_body]
fn argon2_hash(password: &str, salt: &str) -> (r: Result<String, argon2::password_hash::Error>)
    ensures
        r is Ok <==> argon2_credential(password@, salt@) is Some,
        r matches Ok(c) ==> argon2_credential(password@, salt@) == Some(c@) && argon2_outcome(
            c@,
            password@,
        ) == Some(true),
{
    let salt = SaltString::from_b64(salt)?;
    Ok(Argon2::default().hash_password(password.as_bytes(), &salt)?.to_string())
}

/// `PasswordHash::new` on `credential`, then `Argon2::default().verify_password`
/// on what it parsed. Trusted: the result depends on the two strings alone;
/// `None` stands for a string that does not parse.
#[verifier::external_body]
fn argon2_check(credential: &str, password: &str) -> (r: Option<bool>)
    ensures
        r == argon2_outcome(credential@, password@),
{
    match PasswordHash::new(credential) {
        Ok(parsed) => Some(Argon2::default().verify_password(password.as_bytes(), &parsed).is_ok()),
        Err(_) => None,
    }
}

/// Turns what the hashing library returned into the library's own result.
pub fn credential_from(outcome: Result<String, argon2::password_hash::Error>) -> (r: Result<
    String,
    HashError,
>)
    ensures
        match outcome {
            Ok(c) => r == Ok::<String, HashError>(c),
            Err(_) => r == Err::<String, HashError>(HashError::Internal),
        },
{
    match outcome {
        Ok(c) => Ok(c),
        Err(_) => Err(HashError::Internal),
    }
}

/// What hashing `password` gives: what hashing it under some fresh salt
/// gives. So the result is a credential exactly where Argon2 derives one
/// under the salt that was drawn, and then it is that credential.
pub open spec fn hashed(password: Seq<char>, r: Result<String, HashError>) -> bool {
    exists|salt: Seq<char>|
        #![trigger argon2_credential(password, salt)]
        fresh_salt_text(salt) && salted(password, salt, r)
}

/// Derives the credential of `password` under the given salt.
pub fn hash_password_with_salt(password: &str, salt: &str) -> (r: Result<String, HashError>)
    ensures
        salted(password@, salt@, r),
{
    credential_from(argon2_hash(password, salt))
}

/// Derives a credential of `password` under a fresh random salt. It fails
/// only where the hashing library derives no credential under that salt.
pub fn hash_password(password: &str) -> (r: Result<String, HashError>)
    ensures
        hashed(password@, r),
{
    let salt = fresh_salt();
    let r = hash_password_with_salt(password, salt.as_str());
    assert(fresh_salt_text(salt@) && salted(password@, salt@, r));
    r
}

/// What hashing `password` under `salt` gives: the credential that Argon2
/// derives, which `password` satisfies, or an internal fault where it derives
/// none.
pub open spec fn salted(password: Seq<char>, salt: Seq<char>, r: Result<String, HashError>) -> bool {
    match argon2_credential(password, salt) {
        Some(c) => r is Ok && r->Ok_0@ == c && credential_matches(c, password),
        None => r is Err && r->Err_0 == HashError::Internal,
    }
}

/// Whether `c` is in the alphabet of standard Base64: a letter, a digit, `+`
/// or `/`.
pub open spec fn is_salt_char(c: char) -> bool {
    let n = c as u32;
    (0x41 <= n <= 0x5A) || (0x61 <= n <= 0x7A) || (0x30 <= n <= 0x39) || n == 0x2B || n == 0x2F
}

/// Whether `salt` has the form of a fresh salt: the 22 Base64 characters that
/// spell 16 bytes without padding.
pub open spec fn fresh_salt_text(salt: Seq<char>) -> bool {
    salt.len() == 22 && forall|i: int| 0 <= i < salt.len() ==> is_salt_char(#[trigger] salt[i])
}

/// Hashing, then verifying: a credential that `hash_password` returned for a
/// password is one that `verify_password` accepts for that password, and an
/// error that it returned is an internal fault.
pub proof fn law_hash_then_verify(password: Seq<char>, r: Result<String, HashError>)
    requires
        hashed(password, r),
    ensures
        r matches Ok(c) ==> credential_matches(c@, password),
        r matches Err(e) ==> e == HashError::Internal,
{
}

/// Whether a check's outcome counts as a match: a malformed credential
/// matches nothing.
pub fn is_match(outcome: Option<bool>) -> (ok: bool)
    ensures
        ok == (outcome == Some(true)),
{
    match outcome {
        Some(matched) => matched,
        None => false,
    }
}

/// Whether `password` satisfies the stored credential `hash`. A credential
/// that does not parse is satisfied by nothing.
pub fn verify_password(hash: &str, password: &str) -> (ok: bool)
    ensures
        ok == credential_matches(hash@, password@),
{
    is_match(argon2_check(hash, password))
}

} // verus!
