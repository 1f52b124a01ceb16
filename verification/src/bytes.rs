//! Human-readable byte counts, as the `byte_unit` crate shows them.
use vstd::prelude::*;
use crate::text::{digits, without_char, remove_char, lemma_without_char};

verus! {

/// What `byte_unit` displays for a count of bytes after picking the
/// appropriate decimal unit (`Byte::get_appropriate_unit(false)`), e.g.
/// `"1.50 MB"`.
pub uninterp spec fn appropriate_unit_text(bytes: u128) -> Seq<char>;

/// Calls `byte_unit::Byte::from_bytes(bytes).get_appropriate_unit(false)`
/// and displays the result. The text is named by `appropriate_unit_text`;
/// the crate's source also shows that a count of at most 1000 bytes stays in
/// unit `B` and is displayed as its integer value followed by `" B"`.
#[verifier::external_body]
fn appropriate_unit_display(bytes: u128) -> (s: String)
    ensures
        s@ == appropriate_unit_text(bytes),
        bytes <= 1000 ==> s@ == digits(bytes as nat) + seq![' ', 'B'],
{
    byte_unit::Byte::from_bytes(bytes).get_appropriate_unit(false).to_string()
}

/// The compact text of a byte count: the appropriate-unit text with its
/// spaces removed, e.g. `"1.50MB"`.
pub open spec fn byte_text_of(bytes: u128) -> Seq<char> {
    without_char(appropriate_unit_text(bytes), ' ')
}

/// The compact text of a byte count.
pub fn byte_text(bytes: u128) -> (s: String)
    ensures
        s@ == byte_text_of(bytes),
{
    let shown = appropriate_unit_display(bytes);
    remove_char(shown.as_str(), ' ')
}

/// The compact text of an amount given in kilobytes (1000 bytes each).
pub fn kb_text(kb: u64) -> (s: String)
    ensures
        s@ == byte_text_of((kb * 1000) as u128),
{
    byte_text(kb as u128 * 1000)
}

/// A compact byte text holds no spaces.
pub proof fn lemma_byte_text_has_no_spaces(bytes: u128)
    ensures
        forall|i: int| 0 <= i < byte_text_of(bytes).len() ==> #[trigger] byte_text_of(bytes)[i] != ' ',
{
    lemma_without_char(appropriate_unit_text(bytes), ' ');
}

} // verus!
