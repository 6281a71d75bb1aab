//! Small helpers on text.

use vstd::prelude::*;

verus! {

/// Whether the character at `index` of `s` (counting characters, not bytes)
/// is a space or a tab; `false` past the end.
pub fn string_char_isspace(s: &str, index: usize) -> (r: bool)
    ensures
        r == (index < s@.len() && (s@[index as int] == ' ' || s@[index as int] == '\t')),
{
    if index < s.unicode_len() {
        let c = s.get_char(index);
        c == ' ' || c == '\t'
    } else {
        false
    }
}

} // verus!
