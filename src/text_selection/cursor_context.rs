//! Reading the text just before the cursor, by selecting to the left and
//! copying.
//!
//! The reader decides; its caller drives the keyboard and the clipboard. The
//! caller first copies the current selection and reports its length with
//! `CursorContextReader::on_selection`; then, for each `SelectPrevious` step, it
//! selects that many more characters to the left, copies, and reports the copied
//! text with `CursorContextReader::on_copied`, until a `Finish` step says how
//! far to move the cursor back to the right and what the context is. Lengths
//! are counted in the platform editor's cursor positions.

use vstd::prelude::*;

verus! {

/// The next thing the caller does.
#[derive(Debug)]
pub enum ContextStep {
    /// Extend the selection by `count` characters to the left, copy it, and
    /// report the copied text.
    SelectPrevious { count: usize },
    /// Move the cursor `shift_right` positions to the right, deselecting, and
    /// return `text` as the context.
    Finish { shift_right: usize, text: String },
}

/// Where the reader stands.
#[derive(Debug, Clone, Copy, PartialEq, Eq, Structural)]
pub enum ContextPhase {
    /// The current selection has not been reported yet.
    Probing,
    /// Nothing was selected; the text before the cursor is being selected.
    Precursor,
    /// Something was selected; one more character is being added to it.
    Extending { selected: usize },
    /// The selection grew; the rest of the context is being added to it.
    Full { selected: usize },
    /// A `Finish` step has been given.
    Done,
}

/// The first `n` characters of `s`, or all of them where it has fewer.
pub open spec fn first_chars(s: Seq<char>, n: int) -> Seq<char> {
    if n < s.len() {
        s.subrange(0, n)
    } else {
        s
    }
}

/// `step` finishes with a move of `shift` positions right and the context `text`.
pub open spec fn finishes(step: ContextStep, shift: usize, text: Seq<char>) -> bool {
    step matches ContextStep::Finish { shift_right, text: t } && shift_right == shift && t@ == text
}

/// Decides, step by step, how the context before the cursor is read.
pub struct CursorContextReader {
    context_length: usize,
    phase: ContextPhase,
}

impl CursorContextReader {
    pub closed spec fn spec_phase(&self) -> ContextPhase {
        self.phase
    }

    pub closed spec fn spec_context_length(&self) -> usize {
        self.context_length
    }

    /// A reader that asks for `context_length` positions of context.
    pub fn new(context_length: usize) -> (r: Self)
        ensures
            r.spec_phase() == ContextPhase::Probing,
            r.spec_context_length() == context_length,
    {
        CursorContextReader { context_length, phase: ContextPhase::Probing }
    }

    pub fn phase(&self) -> (p: ContextPhase)
        ensures
            p == self.spec_phase(),
    {
        self.phase
    }

    /// The current selection holds `selected` positions. With nothing selected,
    /// the whole context is selected next; otherwise one position is added, to
    /// find out whether the selection can grow to the left at all.
    pub fn on_selection(&mut self, selected: usize) -> (step: ContextStep)
        requires
            old(self).spec_phase() == ContextPhase::Probing,
        ensures
            final(self).spec_context_length() == old(self).spec_context_length(),
            selected == 0 ==> final(self).spec_phase() == ContextPhase::Precursor && step
                == (ContextStep::SelectPrevious { count: old(self).spec_context_length() }),
            selected > 0 ==> final(self).spec_phase() == (ContextPhase::Extending { selected })
                && step == (ContextStep::SelectPrevious { count: 1 }),
    {
        if selected == 0 {
            self.phase = ContextPhase::Precursor;
            ContextStep::SelectPrevious { count: self.context_length }
        } else {
            self.phase = ContextPhase::Extending { selected };
            ContextStep::SelectPrevious { count: 1 }
        }
    }

    /// The copy after the last selection step gave `copied`, which holds
    /// `copied_len` positions.
    ///
    /// - The text before an empty selection is the context, and the cursor goes
    ///   back over it.
    /// - A selection that shrank when extended is put back with one step right,
    ///   and one that did not change means there is nothing before it; either
    ///   way the context is empty.
    /// - A selection that grew is extended by the rest of the context (one
    ///   position is already in it).
    /// - The full selection's new part is its first `copied_len - selected`
    ///   characters, and the cursor goes back by the difference.
    pub fn on_copied(&mut self, copied: String, copied_len: usize) -> (step: ContextStep)
        requires
            old(self).spec_phase() != ContextPhase::Probing,
            old(self).spec_phase() != ContextPhase::Done,
        ensures
            final(self).spec_context_length() == old(self).spec_context_length(),
            match old(self).spec_phase() {
                ContextPhase::Precursor => final(self).spec_phase() == ContextPhase::Done
                    && finishes(step, copied_len, copied@),
                ContextPhase::Extending { selected } => if copied_len < selected {
                    final(self).spec_phase() == ContextPhase::Done && finishes(
                        step,
                        1,
                        Seq::empty(),
                    )
                } else if copied_len == selected {
                    final(self).spec_phase() == ContextPhase::Done && finishes(
                        step,
                        0,
                        Seq::empty(),
                    )
                } else {
                    final(self).spec_phase() == (ContextPhase::Full { selected })
                        && step == (ContextStep::SelectPrevious {
                        count: if old(self).spec_context_length() > 0 {
                            (old(self).spec_context_length() - 1) as usize
                        } else {
                            0
                        },
                    })
                },
                ContextPhase::Full { selected } => final(self).spec_phase() == ContextPhase::Done
                    && finishes(
                    step,
                    (if copied_len >= selected {
                        copied_len - selected
                    } else {
                        selected - copied_len
                    }) as usize,
                    if copied_len >= selected {
                        first_chars(copied@, copied_len - selected)
                    } else {
                        Seq::empty()
                    },
                ),
                _ => false,
            },
    {
        match self.phase {
            ContextPhase::Precursor => {
                self.phase = ContextPhase::Done;
                ContextStep::Finish { shift_right: copied_len, text: copied }
            },
            ContextPhase::Extending { selected } => {
                if copied_len < selected {
                    self.phase = ContextPhase::Done;
                    ContextStep::Finish { shift_right: 1, text: String::new() }
                } else if copied_len == selected {
                    self.phase = ContextPhase::Done;
                    ContextStep::Finish { shift_right: 0, text: String::new() }
                } else {
                    self.phase = ContextPhase::Full { selected };
                    let rest = if self.context_length > 0 {
                        self.context_length - 1
                    } else {
                        0
                    };
                    ContextStep::SelectPrevious { count: rest }
                }
            },
            ContextPhase::Full { selected } => {
                self.phase = ContextPhase::Done;
                if copied_len >= selected {
                    let added = copied_len - selected;
                    let chars = copied.as_str().unicode_len();
                    let keep = if added < chars {
                        added
                    } else {
                        chars
                    };
                    let text = copied.as_str().substring_char(0, keep).to_owned();
                    assert(text@ =~= first_chars(copied@, added as int));
                    ContextStep::Finish { shift_right: added, text }
                } else {
                    ContextStep::Finish { shift_right: selected - copied_len, text: String::new() }
                }
            },
            _ => ContextStep::Finish { shift_right: 0, text: String::new() },
        }
    }
}

} // verus!
