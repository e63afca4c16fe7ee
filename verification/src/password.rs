//! Password hashing, done by the `bcrypt` crate.

use crate::error::EngineError;
use vstd::prelude::*;

verus! {

/// The error type of the `bcrypt` crate, `bcrypt::BcryptError`, as a value
/// that is only handed on.
#[verifier::external_type_specification]
#[verifier::external_body]
pub struct ExBcryptError(bcrypt::BcryptError);

/// What `bcrypt::hash_with_salt` makes of a password and a salt at
/// `bcrypt::DEFAULT_COST`, written as `HashParts::format_for_version` writes
/// it for `Version::TwoB`.
///
/// `bcrypt::hash` gives this text for the salt that it draws: both hash the
/// password and the salt in the same way, and it writes for that version.
pub uninterp spec fn salted_hash(password: Seq<char>, salt: Seq<u8>) -> Seq<char>;

/// Writes a `bcrypt::BcryptError` out as text. Trusted, and nothing is claimed
/// of the text.
#[verifier::external_body]
pub(crate) fn bcrypt_error_text(error: &bcrypt::BcryptError) -> String {
    format!("{}", error)
}

/// Hashes a password for storage, under a salt that is drawn anew at every
/// call. A failure of the hashing is an upstream error with its account.
pub fn hash_password(password: &str) -> (hashed: Result<String, EngineError>)
    ensures
        match hashed {
            Ok(hash) => is_hash_of(password@, hash@),
            Err(error) => error is UpstreamError,
        },
{
    match bcrypt_hash(password) {
        Ok(hash) => hashing_result(Ok(hash)),
        Err(error) => hashing_result(Err(bcrypt_error_text(&error))),
    }
}

/// Whether `hash` is the hash of `password` under some salt of 16 bytes.
pub open spec fn is_hash_of(password: Seq<char>, hash: Seq<char>) -> bool {
    exists|salt: Seq<u8>| salt.len() == 16 && hash == #[trigger] salted_hash(password, salt)
}

/// Calls `bcrypt::hash` with `bcrypt::DEFAULT_COST`. Trusted: the crate draws
/// a salt of 16 bytes at random and hashes the password under it as
/// `salted_hash` says; which salt it draws is left open. The call fails when
/// no randomness can be had, and of the error nothing is claimed.
#[verifier::external_body]
pub(crate) fn bcrypt_hash(password: &str) -> (hashed: Result<String, bcrypt::BcryptError>)
    ensures
        hashed matches Ok(hash) ==> exists|salt: Seq<u8>|
            salt.len() == 16 && hash@ == #[trigger] salted_hash(password@, salt),
{
    bcrypt::hash(password, bcrypt::DEFAULT_COST)
}

/// What the engine makes of how hashing ended: the hash as it came, or an
/// upstream error with the account of the failure.
pub fn hashing_result(outcome: Result<String, String>) -> (hashed: Result<String, EngineError>)
    ensures
        match outcome {
            Ok(hash) => hashed == Ok::<String, EngineError>(hash),
            Err(account) => hashed == Err::<String, EngineError>(
                EngineError::UpstreamError(account),
            ),
        },
{
    match outcome {
        Ok(hash) => Ok(hash),
        Err(account) => Err(EngineError::UpstreamError(account)),
    }
}

} // verus!
