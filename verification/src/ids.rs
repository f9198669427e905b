//! Identifier generation and parsing, resting on the `uuid` crate.

use vstd::prelude::*;
use crate::model::RecordId;

verus! {

/// The value that `uuid::Uuid::parse_str` reads out of a string: `Some` of
/// the 128-bit value when the string is one of the textual UUID forms the
/// crate accepts, `None` otherwise. The result depends on the characters
/// alone.
pub uninterp spec fn uuid_of(s: Seq<char>) -> Option<u128>;

/// Relies on `uuid::Uuid::parse_str`: which strings parse, and to which
/// value, is a function of the characters alone (`uuid_of`).
#[verifier::external_body]
pub(crate) fn parse_record_id(s: &str) -> (r: Option<RecordId>)
    ensures
        r is Some <==> uuid_of(s@) is Some,
        r is Some ==> r.unwrap().value == uuid_of(s@).unwrap(),
{
    match uuid::Uuid::parse_str(s) {
        Ok(u) => Some(RecordId { value: u.as_u128() }),
        Err(_) => None,
    }
}

/// Relies on `uuid::Uuid::new_v4`: a freshly drawn random version-4
/// identifier. Its fixed version and variant bits are never all zero, so the
/// value is not nil; nothing else holds of every outcome.
#[verifier::external_body]
pub(crate) fn fresh_record_id() -> (r: RecordId)
    ensures
        r.value != 0,
{
    RecordId { value: uuid::Uuid::new_v4().as_u128() }
}

} // verus!
