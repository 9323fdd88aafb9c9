//! What is reported of the text that the user has selected.

use vstd::prelude::*;
use vstd::utf8::encode_utf8;

verus! {

/// Longest selection reported when the request names no limit, in bytes.
pub const DEFAULT_MAX_LENGTH: usize = 10000;

/// The text reported for a selection `selected` of `byte_len` bytes under the
/// limit `max_len`:
/// nothing for an empty selection; the first `max_len` characters when the
/// selection is longer than `max_len` bytes; otherwise the whole selection.
pub open spec fn clipped_selection(selected: Seq<char>, byte_len: nat, max_len: nat) -> Option<
    Seq<char>,
> {
    if selected.len() == 0 {
        None
    } else if byte_len > max_len {
        Some(
            selected.subrange(
                0,
                if max_len < selected.len() {
                    max_len as int
                } else {
                    selected.len() as int
                },
            ),
        )
    } else {
        Some(selected)
    }
}

/// The text to report for the selection `selected`, limited by `max_length`
/// (or by `DEFAULT_MAX_LENGTH` when absent). The limit is compared with the
/// selection's length in bytes and applied in characters.
pub fn clip_selected_text(selected: String, max_length: Option<usize>) -> (r: Option<String>)
    ensures
        r matches Some(t) ==> clipped_selection(
            selected@,
            encode_utf8(selected@).len(),
            match max_length {
                Some(m) => m as nat,
                None => DEFAULT_MAX_LENGTH as nat,
            },
        ) == Some(t@),
        r is None <==> selected@.len() == 0,
{
    let max_len = match max_length {
        Some(m) => m,
        None => DEFAULT_MAX_LENGTH,
    };
    if selected.as_str().is_empty() {
        None
    } else if selected.as_str().as_bytes().len() > max_len {
        let chars = selected.as_str().unicode_len();
        let keep = if max_len < chars {
            max_len
        } else {
            chars
        };
        let clipped = selected.as_str().substring_char(0, keep).to_owned();
        assert(keep == chars ==> clipped@ =~= selected@);
        Some(clipped)
    } else {
        Some(selected)
    }
}

} // verus!
