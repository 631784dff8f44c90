//! Identifiers of rooms, bookings, hotels and users, held as 128-bit integers.
use vstd::prelude::*;

verus! {

/// The identifier written in `s`, as a 128-bit integer, or `None` when `s` is no UUID.
pub uninterp spec fn uuid_of(s: Seq<char>) -> Option<u128>;

/// Relies on uuid's `Uuid::parse_str`, its result read as an integer by `Uuid::as_u128`.
#[verifier::external_body]
pub(crate) fn parse_uuid(s: &str) -> (r: Option<u128>)
    ensures
        r == uuid_of(s@),
{
    match uuid::Uuid::parse_str(s) {
        Ok(u) => Some(u.as_u128()),
        Err(_) => None,
    }
}

/// Reads an identifier written as a UUID, as in a request path.
pub fn parse_id(s: &str) -> (r: Option<u128>)
    ensures
        r == uuid_of(s@),
{
    parse_uuid(s)
}

/// The hyphenated, lower-case text of the identifier `id`.
pub uninterp spec fn uuid_text(id: u128) -> Seq<char>;

/// Relies on uuid's `Uuid::from_u128` and its `Display`, which writes the hyphenated form.
#[verifier::external_body]
pub(crate) fn uuid_string(id: u128) -> (r: String)
    ensures
        r@ == uuid_text(id),
{
    uuid::Uuid::from_u128(id).to_string()
}

} // verus!
