//! Text helpers shared by the other modules.

use vstd::prelude::*;

verus! {

/// `==` on string slices compares them character by character, as the
/// standard library documents for `str`.
pub assume_specification[ <str as PartialEq>::eq ](a: &str, b: &str) -> (equal: bool)
    ensures
        equal == (a@ == b@),
;

/// `String::push` appends one character to the end of the string.
pub assume_specification[ String::push ](text: &mut String, c: char)
    ensures
        final(text)@ == old(text)@.push(c),
;

/// What decoding `units` as UTF-16 gives when every unpaired surrogate is
/// replaced by the replacement character.
pub uninterp spec fn utf16_lossy(units: Seq<u16>) -> Seq<char>;

/// `String::from_utf16_lossy` decodes a slice of UTF-16 code units; it never
/// fails, and its text depends on the units alone.
pub assume_specification[ String::from_utf16_lossy ](units: &[u16]) -> (text: String)
    ensures
        text@ == utf16_lossy(units@),
;

/// Whether two string slices hold the same characters.
pub(crate) fn same_text(a: &str, b: &str) -> (equal: bool)
    ensures
        equal == (a@ == b@),
{
    a.eq(b)
}

} // verus!
