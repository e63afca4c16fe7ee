//! Identifiers: 128-bit values, written and read as UUID text.

use crate::error::EngineError;
use vstd::prelude::*;

verus! {

/// What `uuid::Uuid::parse_str` makes of a text: the value of the UUID it
/// reads, or `None` where it reports an error.
pub uninterp spec fn parsed_uuid(text: Seq<char>) -> Option<u128>;

/// The digit that stands for `n` in lower-case hexadecimal.
pub open spec fn hex_digit(n: int) -> char {
    seq!['0', '1', '2', '3', '4', '5', '6', '7', '8', '9', 'a', 'b', 'c', 'd', 'e', 'f'][n]
}

/// The `k`-th of the 32 hexadecimal digits of `id`, counted from the most
/// significant.
pub open spec fn nibble(id: u128, k: int) -> int {
    (id as int / vstd::arithmetic::power::pow(16, (31 - k) as nat)) % 16
}

/// The hyphenated form of `id`: its 32 lower-case hexadecimal digits in groups
/// of 8, 4, 4, 4 and 12, with a hyphen between the groups.
pub open spec fn hyphenated(id: u128) -> Seq<char> {
    Seq::new(
        36,
        |i: int|
            if i == 8 || i == 13 || i == 18 || i == 23 {
                '-'
            } else if i < 8 {
                hex_digit(nibble(id, i))
            } else if i < 13 {
                hex_digit(nibble(id, i - 1))
            } else if i < 18 {
                hex_digit(nibble(id, i - 2))
            } else if i < 23 {
                hex_digit(nibble(id, i - 3))
            } else {
                hex_digit(nibble(id, i - 4))
            },
    )
}

/// Calls `uuid::Uuid::parse_str` and hands back the UUID as a number
/// (`Uuid::as_u128`, big-endian). Trusted: the result is what the crate's
/// parser makes of the text, to which `parsed_uuid` gives a name.
#[verifier::external_body]
pub(crate) fn uuid_from_text(text: &str) -> (id: Option<u128>)
    ensures
        id == parsed_uuid(text@),
{
    match uuid::Uuid::parse_str(text) {
        Ok(value) => Some(value.as_u128()),
        Err(_) => None,
    }
}

/// Calls `to_string` on `uuid::Uuid::from_u128(id)`. Trusted: the crate
/// writes a UUID in hyphenated lower-case form, and its parser reads every
/// text that the crate itself writes back to the same UUID.
#[verifier::external_body]
pub(crate) fn uuid_to_text(id: u128) -> (text: String)
    ensures
        text@ == hyphenated(id),
        parsed_uuid(text@) == Some(id),
{
    uuid::Uuid::from_u128(id).to_string()
}

/// Reads an identifier from its text.
pub fn parse_id(text: &str) -> (read: Result<u128, EngineError>)
    ensures
        match parsed_uuid(text@) {
            Some(id) => read == Ok::<u128, EngineError>(id),
            None => read == Err::<u128, EngineError>(EngineError::MalformedIdentifier),
        },
{
    match uuid_from_text(text) {
        Some(id) => Ok(id),
        None => Err(EngineError::MalformedIdentifier),
    }
}

} // verus!
