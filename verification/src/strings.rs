//! What the library takes from the standard library's strings without proof.

use vstd::prelude::*;

verus! {

/// The lowercase form of a text under the Unicode case mappings: the text
/// that `str::to_lowercase` returns for it.
pub uninterp spec fn lowercase_of(text: Seq<char>) -> Seq<char>;

/// `str::to_lowercase` of the standard library. Its result depends on the
/// characters of `text` alone, so it is given the name `lowercase_of`; nothing
/// more is claimed of it.
pub assume_specification[ str::to_lowercase ](text: &str) -> (lowered: String)
    ensures
        lowered@ == lowercase_of(text@),
;

/// `String::push` of the standard library: the character is added at the end
/// and the rest is kept.
pub assume_specification[ String::push ](text: &mut String, ch: char)
    ensures
        final(text)@ == old(text)@.push(ch),
;

} // verus!
