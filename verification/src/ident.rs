//! Fresh identifiers for new items.

use vstd::prelude::*;

verus! {

/// A digit of lower-case hexadecimal.
pub open spec fn is_hex_digit(c: char) -> bool {
    ('0' <= c && c <= '9') || ('a' <= c && c <= 'f')
}

/// The shape of a generated identifier: 36 characters, hyphens after the 8th,
/// 12th, 16th and 20th hexadecimal digit, lower-case hexadecimal elsewhere.
pub open spec fn is_id_text(s: Seq<char>) -> bool {
    &&& s.len() == 36
    &&& forall|i: int|
        0 <= i < 36 ==> if i == 8 || i == 13 || i == 18 || i == 23 {
            s[i] == '-'
        } else {
            is_hex_digit(#[trigger] s[i])
        }
}

/// Draws a random identifier with `uuid::Uuid::new_v4` and writes it in the
/// hyphenated lower-case form that `Uuid`'s `Display` gives. Trusted: the text
/// has the shape above and carries the version digit `4`. Which identifier
/// comes is left to chance, and so is that it differs from earlier ones.
#[verifier::external_body]
pub(crate) fn random_id() -> (r: String)
    ensures
        is_id_text(r@),
        r@[14] == '4',
{
    uuid::Uuid::new_v4().to_string()
}

} // verus!
