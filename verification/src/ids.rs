//! Identifiers: the UUIDs that name users and stored files.

use vstd::prelude::*;

verus! {

/// What `uuid::Uuid::parse_str` makes of `text`: the UUID as a 128-bit
/// number, or the text of the parser's error.
pub uninterp spec fn uuid_parsed(text: Seq<char>) -> Result<u128, Seq<char>>;

/// The content of the outcome of parsing a UUID.
pub open spec fn parsed_view(parsed: Result<u128, String>) -> Result<u128, Seq<char>> {
    match parsed {
        Ok(id) => Ok(id),
        Err(diagnostic) => Err(diagnostic@),
    }
}

/// Calls `uuid::Uuid::parse_str` and hands out the UUID by `as_u128`, or the
/// error as text. Trusted: the outcome is a function of the text.
#[verifier::external_body]
pub(crate) fn parse_uuid(text: &str) -> (parsed: Result<u128, String>)
    ensures
        parsed_view(parsed) == uuid_parsed(text@),
{
    match uuid::Uuid::parse_str(text) {
        Ok(id) => Ok(id.as_u128()),
        Err(e) => Err(e.to_string()),
    }
}

/// Whether `c` is a digit of lower-case hexadecimal notation.
pub open spec fn is_lower_hex(c: char) -> bool {
    ('0' <= c && c <= '9') || ('a' <= c && c <= 'f')
}

/// Whether `text` has the shape in which a UUID is written: 32 lower-case
/// hexadecimal digits in groups of 8, 4, 4, 4 and 12, joined by hyphens.
pub open spec fn is_uuid_text(text: Seq<char>) -> bool {
    &&& text.len() == 36
    &&& forall|i: int|
        0 <= i < 36 ==> if i == 8 || i == 13 || i == 18 || i == 23 {
            text[i] == '-'
        } else {
            is_lower_hex(#[trigger] text[i])
        }
}

/// Calls `uuid::Uuid::new_v4` and writes the UUID out with `to_string`.
/// Trusted: the text has the hyphenated lower-case shape. Which UUID it is
/// depends on the system's random numbers, so nothing more is claimed, and
/// two calls may differ.
#[verifier::external_body]
pub(crate) fn random_uuid_text() -> (text: String)
    ensures
        is_uuid_text(text@),
{
    uuid::Uuid::new_v4().to_string()
}

} // verus!
