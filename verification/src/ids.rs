//! Identifiers. An id is a UUID, held as its 128 bits.

use vstd::prelude::*;

verus! {

/// The id that a text spells, as `uuid::Uuid::parse_str` reads it: `None`
/// where the text is no UUID in any of the forms that the function takes.
pub uninterp spec fn uuid_of_text(text: Seq<char>) -> Option<u128>;

/// The time that an id carries, as `uuid::Uuid::get_timestamp` reads it, in
/// seconds since the Unix epoch and nanoseconds within the second: `None`
/// where the id is of a version that carries no time.
pub uninterp spec fn uuid_timestamp(id: u128) -> Option<(u64, u32)>;

/// The sixteen bytes of an id, most significant first.
pub open spec fn uuid_octets(id: u128) -> Seq<u8> {
    Seq::new(16, |i: int| ((id >> ((8 * (15 - i)) as u128)) & 0xff) as u8)
}

/// Calls `uuid::Uuid::parse_str`. Trusted: the result depends on the text
/// alone; what it is, is not stated.
#[verifier::external_body]
pub(crate) fn parse_uuid(text: &str) -> (id: Option<u128>)
    ensures
        id == uuid_of_text(text@),
{
    uuid::Uuid::parse_str(text).ok().map(|id| id.as_u128())
}

/// Calls `uuid::Uuid::get_timestamp` and reads the result with
/// `Timestamp::to_unix`. Trusted: the result depends on the id alone; what
/// it is, is not stated.
#[verifier::external_body]
pub(crate) fn timestamp_of_uuid(id: u128) -> (stamp: Option<(u64, u32)>)
    ensures
        stamp == uuid_timestamp(id),
{
    uuid::Uuid::from_u128(id).get_timestamp().map(|stamp| stamp.to_unix())
}

/// Calls `uuid::Uuid::as_bytes` on the id made by `Uuid::from_u128`.
/// Trusted: the bytes are those of the number, most significant first.
#[verifier::external_body]
pub(crate) fn octets_of_uuid(id: u128) -> (octets: Vec<u8>)
    ensures
        octets@ == uuid_octets(id),
{
    uuid::Uuid::from_u128(id).as_bytes().to_vec()
}

} // verus!
