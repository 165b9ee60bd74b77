//! Opaque identifiers: generation of fresh random ids and syntactic
//! validation of caller-supplied UUID strings, both through the `uuid`
//! crate.

use vstd::prelude::*;

verus! {

/// Whether a character sequence is a syntactically valid textual UUID, in
/// any of the forms the `uuid` crate's parser accepts.
pub uninterp spec fn uuid_ok(s: Seq<char>) -> bool;

/// Relies on uuid::Uuid::parse_str: it accepts exactly the simple,
/// hyphenated, braced and URN textual UUID forms, a function of the string
/// alone. Its parser rejects outright every input whose length is not 32,
/// 36, 38 or 45, so in particular the empty string.
#[verifier::external_body]
pub(crate) fn is_valid_uuid(s: &str) -> (r: bool)
    ensures
        r == uuid_ok(s@),
        r ==> (s@.len() == 32 || s@.len() == 36 || s@.len() == 38 || s@.len() == 45),
{
    match uuid::Uuid::parse_str(s) {
        Ok(_) => true,
        Err(_) => false,
    }
}

/// Relies on uuid::Uuid::new_v4 and its display form: a fresh random UUID
/// rendered as the 36-character hyphenated string, one of the forms its own
/// parser accepts. The value is random; nothing else holds of it.
#[verifier::external_body]
pub(crate) fn fresh_id() -> (r: String)
    ensures
        r@.len() == 36,
        uuid_ok(r@),
{
    uuid::Uuid::new_v4().to_string()
}

} // verus!
