//! The id that ties a request to its log lines and to its response.

use vstd::prelude::*;

verus! {

pub open spec fn is_lower_hex_digit(c: char) -> bool {
    ('0' <= c && c <= '9') || ('a' <= c && c <= 'f')
}

/// Whether `s` is a random (version 4, RFC 9562 variant) UUID in its
/// hyphenated lower-case form: 36 characters, hyphens at 8, 13, 18 and 23,
/// hex digits elsewhere, the version digit `4`, and the variant digit one
/// of `8`, `9`, `a`, `b`.
pub open spec fn is_uuid_v4_text(s: Seq<char>) -> bool {
    &&& s.len() == 36
    &&& forall|i: int|
        0 <= i < 36 ==> if i == 8 || i == 13 || i == 18 || i == 23 {
            s[i] == '-'
        } else {
            is_lower_hex_digit(#[trigger] s[i])
        }
    &&& s[14] == '4'
    &&& (s[19] == '8' || s[19] == '9' || s[19] == 'a' || s[19] == 'b')
}

/// Calls `uuid::Uuid::new_v4()` and writes it with `to_string()`: the
/// source sets the version and variant bits of 128 random bits, and its
/// `Display` writes the hyphenated lower-case form. Which id comes is left
/// open.
#[verifier::external_body]
fn new_uuid_v4_text() -> (s: String)
    ensures
        is_uuid_v4_text(s@),
{
    uuid::Uuid::new_v4().to_string()
}

/// The request's id: the one it arrived with, if it had one that reads as
/// text, else a new random one.
pub fn request_id_or_new(found: Option<String>) -> (id: String)
    ensures
        found matches Some(f) ==> id == f,
        found is None ==> is_uuid_v4_text(id@),
{
    match found {
        Some(f) => f,
        None => new_uuid_v4_text(),
    }
}

} // verus!
