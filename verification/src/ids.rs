//! Fresh identifiers.

use vstd::prelude::*;

verus! {

/// The digits that an identifier is written with.
pub open spec fn is_lower_hex(c: char) -> bool {
    '0' <= c <= '9' || 'a' <= c <= 'f'
}

/// Whether `s` is the text of a random UUID: groups of 8, 4, 4, 4 and 12 lower-case hexadecimal
/// digits with a hyphen between two of them, the third group beginning with the version, and the
/// fourth with the variant.
pub open spec fn is_random_uuid(s: Seq<char>) -> bool {
    &&& s.len() == 36
    &&& forall|i: int|
        0 <= i < 36 ==> if i == 8 || i == 13 || i == 18 || i == 23 {
            #[trigger] s[i] == '-'
        } else {
            is_lower_hex(s[i])
        }
    &&& s[14] == '4'
    &&& s[19] == '8' || s[19] == '9' || s[19] == 'a' || s[19] == 'b'
}

/// The text of a new UUID: `uuid::Uuid::new_v4`, written by its `Display`.
///
/// Trusted: the version and variant bits are set whatever the random source gives, and `Display`
/// writes all the digits in lower case with hyphens. That two identifiers differ is a matter of
/// chance and is not claimed. The call panics where the operating system has no randomness to
/// give.
#[verifier::external_body]
pub(crate) fn fresh_id() -> (id: String)
    ensures
        is_random_uuid(id@),
{
    uuid::Uuid::new_v4().to_string()
}

} // verus!
