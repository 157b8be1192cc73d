//! The resolved input: a display label and the full text it labels, with the
//! four counting routines proved against the functions in `counts`.

use crate::counts::{
    byte_count_of, char_count_of, is_ws_char, is_whitespace_char, lemma_newline_count_le_len,
    line_count_of, newline_count_of, word_count_from, word_count_of,
};
use vstd::prelude::*;
use vstd::string::StrSliceExecFns;

verus! {

/// One source of text: the content to be counted, and the label printed
/// after the counts (the file path, or empty for piped input).
pub struct Data {
    pub path: String,
    pub contents: String,
}

impl Data {
    /// The text, as the sequence of its Unicode scalar values.
    pub open spec fn text(self) -> Seq<char> {
        self.contents@
    }

    /// The display label.
    pub open spec fn label(self) -> Seq<char> {
        self.path@
    }

    /// Wraps already-resolved text that has no path, as when it was piped in.
    pub fn new_from_data(data: String) -> (r: Data)
        ensures
            r.text() == data@,
            r.label() == Seq::<char>::empty(),
    {
        Data { path: String::new(), contents: data }
    }

    /// The byte count of the text.
    pub fn get_bytes(&self) -> (r: usize)
        ensures
            r == byte_count_of(self.text()),
    {
        self.contents.as_str().as_bytes().len()
    }

    /// The character count of the text.
    pub fn get_chars(&self) -> (r: usize)
        ensures
            r == char_count_of(self.text()),
    {
        self.contents.as_str().unicode_len()
    }

    /// The line count of the text.
    pub fn get_lines(&self) -> (r: usize)
        ensures
            r == line_count_of(self.text()),
    {
        let s = self.contents.as_str();
        let n = s.unicode_len();
        let mut i: usize = 0;
        let mut nl: usize = 0;
        while i < n
            invariant
                i <= n,
                n == s@.len(),
                nl == newline_count_of(s@.subrange(0, i as int)),
                nl <= i,
            decreases n - i,
        {
            let c = s.get_char(i);
            proof {
                lemma_newline_count_le_len(s@.subrange(0, i as int));
                assert(s@.subrange(0, i as int + 1).drop_last() =~= s@.subrange(0, i as int));
                assert(s@.subrange(0, i as int + 1).last() == s@[i as int]);
            }
            if c == '\n' {
                nl = nl + 1;
            }
            i = i + 1;
        }
        proof {
            assert(s@.subrange(0, n as int) =~= s@);
        }
        if n > 0 {
            let last = s.get_char(n - 1);
            if last != '\n' {
                proof {
                    assert(newline_count_of(s@) == newline_count_of(s@.drop_last()));
                    lemma_newline_count_le_len(s@.drop_last());
                }
                nl = nl + 1;
            }
        }
        nl
    }

    /// The word count of the text.
    pub fn get_words(&self) -> (r: usize)
        ensures
            r == word_count_of(self.text()),
    {
        let s = self.contents.as_str();
        let n = s.unicode_len();
        let mut i: usize = 0;
        let mut count: usize = 0;
        let mut in_word = false;
        proof {
            assert(s@.skip(0) =~= s@);
        }
        while i < n
            invariant
                i <= n,
                n == s@.len(),
                count <= i,
                count + word_count_from(s@.skip(i as int), in_word) == word_count_of(s@),
            decreases n - i,
        {
            let c = s.get_char(i);
            let ws = is_whitespace_char(c);
            proof {
                assert(s@.skip(i as int).drop_first() =~= s@.skip(i as int + 1));
                assert(s@.skip(i as int)[0] == s@[i as int]);
            }
            if ws {
                in_word = false;
            } else if !in_word {
                count = count + 1;
                in_word = true;
            }
            i = i + 1;
        }
        proof {
            assert(s@.skip(n as int) =~= Seq::<char>::empty());
        }
        count
    }
}

} // verus!
