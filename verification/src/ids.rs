//! Random identifiers.

use vstd::prelude::*;

verus! {

/// A universally unique identifier.
#[verifier::external_type_specification]
#[verifier::external_body]
pub struct ExUuid(uuid::Uuid);

/// `Uuid::new_v4` draws a random identifier: nothing is promised of it.
pub assume_specification[ uuid::Uuid::new_v4 ]() -> (r: uuid::Uuid);

/// Whether a text is an identifier in simple form: 32 hexadecimal digits,
/// the letters among them in lower case.
pub open spec fn is_simple_id(text: Seq<char>) -> bool {
    &&& text.len() == 32
    &&& forall|i: int|
        0 <= i < text.len() ==> ('0' <= #[trigger] text[i] && text[i] <= '9') || ('a' <= text[i]
            && text[i] <= 'f')
}

/// Formats the identifier with `Uuid::simple`: its 32 hexadecimal digits
/// in lower case, without hyphens.
#[verifier::external_body]
pub(crate) fn simple_text(id: &uuid::Uuid) -> (r: String)
    ensures
        is_simple_id(r@),
{
    id.simple().to_string()
}

/// Whether a text is an identifier in hyphenated form: 36 characters, each
/// a hexadecimal digit in lower case or a hyphen.
pub open spec fn is_hyphenated_id(text: Seq<char>) -> bool {
    &&& text.len() == 36
    &&& forall|i: int|
        0 <= i < text.len() ==> ('0' <= #[trigger] text[i] && text[i] <= '9') || ('a' <= text[i]
            && text[i] <= 'f') || text[i] == '-'
}

/// Formats the identifier with its `Display`: its hexadecimal digits in
/// lower case, in hyphenated groups, 36 characters in all.
#[verifier::external_body]
pub(crate) fn hyphenated_text(id: &uuid::Uuid) -> (r: String)
    ensures
        is_hyphenated_id(r@),
{
    id.to_string()
}

} // verus!
