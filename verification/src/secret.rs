//! Verification of a presented secret against a stored, salted and peppered
//! hash.

use crate::error::ErrorType;
use vstd::prelude::*;

verus! {

/// The longest pepper that the hashing scheme takes, in bytes.
pub const MAX_PEPPER_LEN: usize = 0xFFFF_FFFF;

/// Whether `argon2::PasswordHash::new` reads `hash` as a hash in the PHC
/// string format.
pub uninterp spec fn hash_is_readable(hash: Seq<char>) -> bool;

/// Whether `secret` verifies against `hash` under `pepper`: the result of
/// `verify_password` on the Argon2 context made with the pepper as its
/// secret key.
pub uninterp spec fn secret_matches(pepper: Seq<u8>, secret: Seq<u8>, hash: Seq<char>) -> bool;

/// Calls `argon2::PasswordHash::new`. Trusted: whether the call succeeds
/// depends on the text alone.
#[verifier::external_body]
fn stored_hash_is_readable(hash: &str) -> (readable: bool)
    ensures
        readable == hash_is_readable(hash@),
{
    argon2::PasswordHash::new(hash).is_ok()
}

/// Calls `verify_password` of `argon2::PasswordVerifier` on the context that
/// `argon2::Argon2::new_with_secret` makes from the pepper, with the hash that
/// `argon2::PasswordHash::new` reads. Trusted: whether the call succeeds
/// depends on the pepper, the secret and the hash alone; the algorithm,
/// version and costs are those that the hash itself names.
#[verifier::external_body]
fn secret_verifies(pepper: &[u8], secret: &[u8], hash: &str) -> (verified: bool)
    requires
        pepper@.len() <= MAX_PEPPER_LEN,
        hash_is_readable(hash@),
    ensures
        verified == secret_matches(pepper@, secret@, hash@),
{
    let context = argon2::Argon2::new_with_secret(
        pepper,
        argon2::Algorithm::Argon2id,
        argon2::Version::V0x13,
        argon2::Params::DEFAULT,
    );
    match (context, argon2::PasswordHash::new(hash)) {
        (Ok(context), Ok(parsed)) => {
            argon2::PasswordVerifier::verify_password(&context, secret, &parsed).is_ok()
        },
        _ => false,
    }
}

/// What verification gives once it is known whether the stored hash can be
/// read, whether the pepper is short enough to be a key, and whether the
/// secret matches. A hash that cannot be read and a pepper that is too long
/// are faults of the server, not of the credential.
pub open spec fn secret_verdict(readable: bool, pepper_fits: bool, matches: bool) -> Result<
    bool,
    ErrorType,
> {
    if !readable || !pepper_fits {
        Err(ErrorType::ServerError)
    } else {
        Ok(matches)
    }
}

/// Verifies `secret` against the stored `hash` under the server's `pepper`.
pub fn verify_secret(pepper: &[u8], secret: &[u8], hash: &str) -> (verdict: Result<
    bool,
    ErrorType,
>)
    ensures
        verdict == secret_verdict(
            hash_is_readable(hash@),
            pepper@.len() <= MAX_PEPPER_LEN,
            secret_matches(pepper@, secret@, hash@),
        ),
{
    if !stored_hash_is_readable(hash) {
        return Err(ErrorType::ServerError);
    }
    if pepper.len() > MAX_PEPPER_LEN {
        return Err(ErrorType::ServerError);
    }
    Ok(secret_verifies(pepper, secret, hash))
}

} // verus!
