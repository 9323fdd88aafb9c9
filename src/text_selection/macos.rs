//! Character counting for macOS editors, where every character is one cursor
//! position.

use vstd::prelude::*;

verus! {

/// The number of cursor positions in `text` for a macOS editor: its number of
/// characters.
pub fn count_editor_chars(text: &str) -> (n: usize)
    ensures
        n == text@.len(),
{
    text.unicode_len()
}

} // verus!
