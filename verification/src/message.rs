//! Message payloads and message ids. Ids travel as text on the wire; their
//! structured form is the 128-bit value behind that text.

use vstd::prelude::*;

verus! {

/// A message payload of type `T`.
#[derive(Debug, Clone)]
pub struct Payload<T>(pub T);

/// When deserializing a message payload fails.
#[derive(Debug, Clone)]
pub struct DeserializeError(pub String);

/// When serializing a message payload fails.
#[derive(Debug, Clone)]
pub struct SerializeError(pub String);

/// What parsing an id string yields: the 128-bit value, or a failure.
/// Parsing is a deterministic function of the characters alone.
pub uninterp spec fn spec_parse_id(s: Seq<char>) -> Result<u128, ()>;

/// Relies on `uuid::Uuid::parse_str`: accepts the textual id formats
/// (hyphenated, simple, urn, GUID) and is deterministic in its input;
/// `as_u128` converts the parsed id to its 128-bit value.
#[verifier::external_body]
pub(crate) fn parse_id(s: &str) -> (r: Result<u128, ()>)
    ensures
        r == spec_parse_id(s@),
{
    match uuid::Uuid::parse_str(s) {
        Ok(u) => Ok(u.as_u128()),
        Err(_) => Err(()),
    }
}

/// Relies on `uuid::Uuid::new_v4` and its hyphenated display form, which is
/// always 36 characters. The value itself is random, so nothing more is
/// promised of it.
#[verifier::external_body]
pub(crate) fn new_id_string() -> (r: String)
    ensures
        r@.len() == 36,
{
    uuid::Uuid::new_v4().to_string()
}

} // verus!
