//! Identifiers: the random UUIDs that new rows and session tokens are made from.

use vstd::prelude::*;

verus! {

/// A lower-case hexadecimal digit.
pub open spec fn is_lower_hex(c: char) -> bool {
    ('0' <= c && c <= '9') || ('a' <= c && c <= 'f')
}

/// The hyphenated lower-case form of a random (version 4, RFC 4122 variant)
/// UUID: 36 characters, hyphens at positions 8, 13, 18 and 23, hexadecimal
/// digits elsewhere, the version digit `4` at position 14 and a variant digit
/// `8`, `9`, `a` or `b` at position 19.
pub open spec fn is_uuid_text(s: Seq<char>) -> bool {
    &&& s.len() == 36
    &&& s[14] == '4'
    &&& (s[19] == '8' || s[19] == '9' || s[19] == 'a' || s[19] == 'b')
    &&& forall|i: int|
        0 <= i < 36 ==> if i == 8 || i == 13 || i == 18 || i == 23 {
            s[i] == '-'
        } else {
            is_lower_hex(#[trigger] s[i])
        }
}

/// Calls `uuid::Uuid::new_v4` and renders it with `to_string`, whose `Display`
/// writes the hyphenated lower-case form. `new_v4` masks in the version bits
/// `0100` and the variant bits `10`, which fixes the digit at position 14 to
/// `4` and the one at position 19 to `8`, `9`, `a` or `b`. The value is
/// random: only this shape is stated.
#[verifier::external_body]
fn random_uuid_text() -> (s: String)
    ensures
        is_uuid_text(s@),
{
    uuid::Uuid::new_v4().to_string()
}

/// A fresh random identifier, as rows use for their `id`.
pub fn new_id() -> (s: String)
    ensures
        is_uuid_text(s@),
{
    random_uuid_text()
}

} // verus!
