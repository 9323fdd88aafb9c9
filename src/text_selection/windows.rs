//! Character counting for Windows editors, where CRLF is one cursor position.

use super::cross_platform::collapse_crlf;
use vstd::prelude::*;

verus! {

/// The number of cursor positions in `text` for a Windows editor: a CRLF line
/// break is one position.
pub fn count_editor_chars(text: &str) -> (n: usize)
    ensures
        n == collapse_crlf(text@).len(),
{
    super::cross_platform::count_editor_chars(text)
}

} // verus!
