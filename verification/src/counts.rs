//! The four counts, as mathematical functions over a sequence of Unicode
//! scalar values, together with the laws that relate them.

use vstd::prelude::*;

verus! {

/// A character with the Unicode `White_Space` property: the separator set
/// that word splitting uses, the same set `char::is_whitespace` recognises.
pub open spec fn is_ws_char(c: char) -> bool {
    let u = c as u32;
    ||| (0x09 <= u && u <= 0x0D)
    ||| u == 0x20
    ||| u == 0x85
    ||| u == 0xA0
    ||| u == 0x1680
    ||| (0x2000 <= u && u <= 0x200A)
    ||| u == 0x2028
    ||| u == 0x2029
    ||| u == 0x202F
    ||| u == 0x205F
    ||| u == 0x3000
}

/// Decides `is_ws_char`: membership in the Unicode `White_Space` set.
pub fn is_whitespace_char(c: char) -> (r: bool)
    ensures
        r == is_ws_char(c),
{
    let u = c as u32;
    (0x09 <= u && u <= 0x0D) || u == 0x20 || u == 0x85 || u == 0xA0 || u == 0x1680 || (0x2000 <= u
        && u <= 0x200A) || u == 0x2028 || u == 0x2029 || u == 0x202F || u == 0x205F || u == 0x3000
}

/// How many newline characters the text holds.
pub open spec fn newline_count_of(s: Seq<char>) -> nat
    decreases s.len(),
{
    if s.len() == 0 {
        0
    } else {
        newline_count_of(s.drop_last()) + (if s.last() == '\n' {
            1nat
        } else {
            0nat
        })
    }
}

/// How many line segments splitting on newline boundaries yields: one per
/// newline character, plus one for a non-empty unterminated final segment.
/// A trailing newline adds no phantom empty line.
pub open spec fn line_count_of(s: Seq<char>) -> nat {
    newline_count_of(s) + (if s.len() > 0 && s.last() != '\n' {
        1nat
    } else {
        0nat
    })
}

/// How many Unicode scalar values the text holds.
pub open spec fn char_count_of(s: Seq<char>) -> nat {
    s.len()
}

/// How many bytes the text occupies in its UTF-8 encoding.
pub open spec fn byte_count_of(s: Seq<char>) -> nat {
    vstd::utf8::encode_utf8(s).len()
}

/// Words remaining in `s` when scanned left to right, where `in_word` says
/// whether the scan stands inside a word begun just before `s`: a word is
/// counted at each non-whitespace character that does not extend one.
pub open spec fn word_count_from(s: Seq<char>, in_word: bool) -> nat
    decreases s.len(),
{
    if s.len() == 0 {
        0
    } else if is_ws_char(s[0]) {
        word_count_from(s.drop_first(), false)
    } else if in_word {
        word_count_from(s.drop_first(), true)
    } else {
        1 + word_count_from(s.drop_first(), true)
    }
}

/// How many maximal runs of non-whitespace characters the text holds.
pub open spec fn word_count_of(s: Seq<char>) -> nat {
    word_count_from(s, false)
}

/// The newline count never exceeds the length.
pub proof fn lemma_newline_count_le_len(s: Seq<char>)
    ensures
        newline_count_of(s) <= s.len(),
    decreases s.len(),
{
    if s.len() > 0 {
        lemma_newline_count_le_len(s.drop_last());
    }
}

/// Every text has at least as many characters as lines.
pub proof fn lemma_line_count_le_char_count(s: Seq<char>)
    ensures
        line_count_of(s) <= char_count_of(s),
{
    if s.len() > 0 && s.last() != '\n' {
        lemma_newline_count_le_len(s.drop_last());
    } else {
        lemma_newline_count_le_len(s);
    }
}

/// Every character of `s` is whitespace.
pub open spec fn all_ws(s: Seq<char>) -> bool {
    forall|i: int| 0 <= i < s.len() ==> is_ws_char(s[i])
}

/// Whether a scan that entered `s` in state `st` leaves it inside a word.
pub open spec fn in_word_after(s: Seq<char>, st: bool) -> bool {
    if s.len() == 0 {
        st
    } else {
        !is_ws_char(s.last())
    }
}

/// Scanning a concatenation counts the words of the first part, then those
/// of the second part starting from the state the first part left behind.
pub proof fn lemma_word_count_from_concat(a: Seq<char>, b: Seq<char>, st: bool)
    ensures
        word_count_from(a + b, st) == word_count_from(a, st) + word_count_from(
            b,
            in_word_after(a, st),
        ),
    decreases a.len(),
{
    if a.len() == 0 {
        assert(a + b =~= b);
    } else {
        let t = a.drop_first();
        assert((a + b).drop_first() =~= t + b);
        assert((a + b)[0] == a[0]);
        let st2 = !is_ws_char(a[0]);
        lemma_word_count_from_concat(t, b, st2);
        if t.len() > 0 {
            assert(t.last() == a.last());
        }
    }
}

/// A run of nothing but whitespace holds no word, from either state.
pub proof fn lemma_word_count_from_all_ws(s: Seq<char>, st: bool)
    requires
        all_ws(s),
    ensures
        word_count_from(s, st) == 0,
    decreases s.len(),
{
    if s.len() > 0 {
        lemma_word_count_from_all_ws(s.drop_first(), false);
    }
}

/// A non-empty whitespace run separates: the words on either side of it are
/// counted independently, whatever the run is.
pub proof fn lemma_word_count_ws_separates(a: Seq<char>, ws: Seq<char>, b: Seq<char>)
    requires
        ws.len() > 0,
        all_ws(ws),
    ensures
        word_count_of(a + ws + b) == word_count_of(a) + word_count_of(b),
{
    assert(a + ws + b =~= a + (ws + b));
    lemma_word_count_from_concat(a, ws + b, false);
    let st = in_word_after(a, false);
    lemma_word_count_from_concat(ws, b, st);
    lemma_word_count_from_all_ws(ws, st);
    assert(!in_word_after(ws, st));
}

/// The word count does not change when one whitespace run standing between
/// two pieces of text is replaced by another: inserting extra whitespace
/// into an existing separator leaves the count as it was.
pub proof fn lemma_word_count_ws_insert(a: Seq<char>, ws1: Seq<char>, ws2: Seq<char>, b: Seq<char>)
    requires
        ws1.len() > 0,
        all_ws(ws1),
        ws2.len() > 0,
        all_ws(ws2),
    ensures
        word_count_of(a + ws1 + b) == word_count_of(a + ws2 + b),
{
    lemma_word_count_ws_separates(a, ws1, b);
    lemma_word_count_ws_separates(a, ws2, b);
}

} // verus!

