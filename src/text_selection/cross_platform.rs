//! Character counting where a CRLF line break is one cursor position.

use vstd::prelude::*;

verus! {

/// `s` with every CRLF pair, taken from the left, replaced by a single LF.
pub open spec fn collapse_crlf(s: Seq<char>) -> Seq<char>
    decreases s.len(),
{
    if s.len() < 2 {
        s
    } else if s[0] == '\r' && s[1] == '\n' {
        seq!['\n'] + collapse_crlf(s.subrange(2, s.len() as int))
    } else {
        seq![s[0]] + collapse_crlf(s.subrange(1, s.len() as int))
    }
}

/// The number of positions `i` where `s[i]` is CR and `s[i + 1]` is LF.
pub open spec fn crlf_count(s: Seq<char>) -> nat
    decreases s.len(),
{
    if s.len() < 2 {
        0
    } else {
        (if s[0] == '\r' && s[1] == '\n' {
            1nat
        } else {
            0nat
        }) + crlf_count(s.subrange(1, s.len() as int))
    }
}

/// Collapsing removes one character per CRLF pair.
pub proof fn lemma_collapse_len(s: Seq<char>)
    ensures
        crlf_count(s) <= s.len(),
        collapse_crlf(s).len() == s.len() - crlf_count(s),
    decreases s.len(),
{
    if s.len() >= 2 {
        let tail = s.subrange(1, s.len() as int);
        lemma_collapse_len(tail);
        if s[0] == '\r' && s[1] == '\n' {
            let rest = s.subrange(2, s.len() as int);
            lemma_collapse_len(rest);
            if tail.len() >= 2 {
                assert(tail.subrange(1, tail.len() as int) =~= rest);
            }
        }
    }
}

/// Appending a character adds one pair exactly when it is LF after CR.
proof fn lemma_crlf_count_push(s: Seq<char>, c: char)
    ensures
        crlf_count(s.push(c)) == crlf_count(s) + (if s.len() > 0 && s.last() == '\r' && c
            == '\n' {
            1nat
        } else {
            0nat
        }),
    decreases s.len(),
{
    let t = s.push(c);
    if s.len() >= 2 {
        let tail = s.subrange(1, s.len() as int);
        lemma_crlf_count_push(tail, c);
        assert(t.subrange(1, t.len() as int) =~= tail.push(c));
        assert(t[0] == s[0] && t[1] == s[1]);
        assert(tail.last() == s.last());
    } else if s.len() == 1 {
        let tail = t.subrange(1, t.len() as int);
        assert(tail.len() == 1);
        assert(crlf_count(tail) == 0);
        assert(t[0] == s.last() && t[1] == c);
    } else {
        assert(crlf_count(t) == 0);
    }
}

/// The number of cursor positions in `text` for an editor that treats a CRLF
/// line break as one position.
pub fn count_editor_chars(text: &str) -> (n: usize)
    ensures
        n == collapse_crlf(text@).len(),
{
    let total = text.unicode_len();
    let mut pairs: usize = 0;
    let mut prev_cr = false;
    for c in it: text.chars()
        invariant
            total == text@.len(),
            it.seq() == text@,
            pairs <= it.index(),
            it.index() <= total,
            pairs == crlf_count(text@.subrange(0, it.index() as int)),
            prev_cr == (it.index() > 0 && text@[it.index() - 1] == '\r'),
    {
        proof {
            let i = it.index() as int;
            lemma_crlf_count_push(text@.subrange(0, i), c);
            assert(text@.subrange(0, i).push(c) =~= text@.subrange(0, i + 1));
        }
        if prev_cr && c == '\n' {
            pairs += 1;
        }
        prev_cr = c == '\r';
    }
    proof {
        assert(text@.subrange(0, total as int) =~= text@);
        lemma_collapse_len(text@);
    }
    total - pairs
}

} // verus!
