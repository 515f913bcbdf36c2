//! Entity identifiers.
//!
//! Inside the crate an identifier is a plain 128-bit value; the canonical
//! hyphenated text form only appears where an identifier travels inside a
//! token's `sub` claim.  Formatting and parsing are delegated to the uuid
//! crate.

use vstd::prelude::*;

verus! {

/// The canonical hyphenated text form of an identifier, as the uuid crate
/// renders it.  Deterministic in the identifier.
pub uninterp spec fn id_text(id: u128) -> Seq<char>;

/// The identifier a string denotes, if the uuid crate accepts the string
/// (hyphenated, simple, urn or braced form); `None` for anything else.
/// Deterministic in the string.
pub uninterp spec fn parsed_id(s: Seq<char>) -> Option<u128>;

/// Relies on `uuid::Uuid::to_string` via `from_u128`: renders the canonical
/// hyphenated form, which `Uuid::parse_str` accepts and maps back to the
/// same 128-bit value.
#[verifier::external_body]
pub fn format_id(id: u128) -> (r: String)
    ensures
        r@ == id_text(id),
        parsed_id(r@) == Some(id),
{
    uuid::Uuid::from_u128(id).to_string()
}

/// Relies on `uuid::Uuid::parse_str` via `as_u128`: accepts exactly the
/// uuid text forms and is deterministic in the input string.
#[verifier::external_body]
pub fn parse_id(s: &str) -> (r: Option<u128>)
    ensures
        r == parsed_id(s@),
{
    match uuid::Uuid::parse_str(s) {
        Ok(u) => Some(u.as_u128()),
        Err(_) => None,
    }
}

/// Relies on `uuid::Uuid::new_v4`: a random identifier.  Nothing is assumed
/// of the value; callers test freshness themselves.
#[verifier::external_body]
pub fn new_id() -> (r: u128)
{
    uuid::Uuid::new_v4().as_u128()
}

} // verus!
