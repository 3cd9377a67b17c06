//! Execution identifiers: random version-4 UUIDs in their usual text form.

use vstd::prelude::*;

verus! {

/// Whether `c` is a decimal digit or one of `a` to `f`.
pub open spec fn is_lower_hex(c: char) -> bool {
    ('0' <= c && c <= '9') || ('a' <= c && c <= 'f')
}

/// The places of the four hyphens in the text form of a UUID.
pub open spec fn is_hyphen_position(i: int) -> bool {
    i == 8 || i == 13 || i == 18 || i == 23
}

/// Whether `text` has the form of a version-4 UUID: 36 characters, hyphens
/// after 8, 12, 16 and 20 digits, lower-case hexadecimal digits elsewhere, the
/// version digit `4` and a variant digit from `8` to `b`.
pub open spec fn is_identifier(text: Seq<char>) -> bool {
    &&& text.len() == 36
    &&& forall|i: int|
        0 <= i < 36 ==> if is_hyphen_position(i) {
            #[trigger] text[i] == '-'
        } else {
            is_lower_hex(text[i])
        }
    &&& text[14] == '4'
    &&& (text[19] == '8' || text[19] == '9' || text[19] == 'a' || text[19] == 'b')
}

/// Calls `Uuid::new_v4` of the uuid crate and formats the result with
/// `to_string`. Every such value has the version and variant bits set, and its
/// text form is the hyphenated lower-case one; which digits it holds is left
/// to chance, so nothing more is claimed.
#[verifier::external_body]
fn random_identifier() -> (id: String)
    ensures
        is_identifier(id@),
{
    uuid::Uuid::new_v4().to_string()
}

/// Mints a fresh execution identifier.
pub fn mint_identifier() -> (id: String)
    ensures
        is_identifier(id@),
{
    random_identifier()
}

} // verus!
