//! Decimal rendering of counts and the fixed-order option policy: which
//! counts are emitted, in what order, and how the single output line is
//! assembled from them and the label.

use crate::counts::{byte_count_of, char_count_of, line_count_of, word_count_of};
use crate::data::Data;
use vstd::prelude::*;
use vstd::string::StringExecFns;

verus! {

/// The decimal digit character for `d`.
pub open spec fn digit_char(d: nat) -> char {
    if d == 0 {
        '0'
    } else if d == 1 {
        '1'
    } else if d == 2 {
        '2'
    } else if d == 3 {
        '3'
    } else if d == 4 {
        '4'
    } else if d == 5 {
        '5'
    } else if d == 6 {
        '6'
    } else if d == 7 {
        '7'
    } else if d == 8 {
        '8'
    } else {
        '9'
    }
}

/// The decimal digits of `n`, most significant first, with no leading zeros.
pub open spec fn dec_digits(n: nat) -> Seq<char>
    decreases n,
{
    if n < 10 {
        seq![digit_char(n)]
    } else {
        dec_digits(n / 10).push(digit_char(n % 10))
    }
}

/// The single decimal digit `d` as a one-character string.
fn digit_str(d: usize) -> (r: String)
    requires
        d < 10,
    ensures
        r@ == seq![digit_char(d as nat)],
{
    proof {
        reveal_strlit("0");
        reveal_strlit("1");
        reveal_strlit("2");
        reveal_strlit("3");
        reveal_strlit("4");
        reveal_strlit("5");
        reveal_strlit("6");
        reveal_strlit("7");
        reveal_strlit("8");
        reveal_strlit("9");
    }
    if d == 0 {
        String::from_str("0")
    } else if d == 1 {
        String::from_str("1")
    } else if d == 2 {
        String::from_str("2")
    } else if d == 3 {
        String::from_str("3")
    } else if d == 4 {
        String::from_str("4")
    } else if d == 5 {
        String::from_str("5")
    } else if d == 6 {
        String::from_str("6")
    } else if d == 7 {
        String::from_str("7")
    } else if d == 8 {
        String::from_str("8")
    } else {
        String::from_str("9")
    }
}

/// Renders `n` in decimal, with no leading zeros.
pub fn to_decimal(n: usize) -> (r: String)
    ensures
        r@ == dec_digits(n as nat),
    decreases n,
{
    if n < 10 {
        digit_str(n)
    } else {
        let mut r = to_decimal(n / 10);
        let d = digit_str(n % 10);
        r.append(d.as_str());
        proof {
            assert(r@ =~= dec_digits((n / 10) as nat).push(digit_char((n % 10) as nat)));
        }
        r
    }
}

/// The counts chosen by the flags, in the fixed order bytes, chars, lines,
/// words; with no flag set, the default trio lines, words, bytes (character
/// count is never part of the default trio).
pub open spec fn selected_counts(
    bytes: bool,
    chars: bool,
    lines: bool,
    words: bool,
    s: Seq<char>,
) -> Seq<nat> {
    if !bytes && !chars && !lines && !words {
        seq![line_count_of(s), word_count_of(s), byte_count_of(s)]
    } else {
        (if bytes {
            seq![byte_count_of(s)]
        } else {
            Seq::<nat>::empty()
        }) + (if chars {
            seq![char_count_of(s)]
        } else {
            Seq::<nat>::empty()
        }) + (if lines {
            seq![line_count_of(s)]
        } else {
            Seq::<nat>::empty()
        }) + (if words {
            seq![word_count_of(s)]
        } else {
            Seq::<nat>::empty()
        })
    }
}

/// The counts rendered in decimal and joined by single spaces.
pub open spec fn render_counts(counts: Seq<nat>) -> Seq<char>
    decreases counts.len(),
{
    if counts.len() == 0 {
        Seq::<char>::empty()
    } else if counts.len() == 1 {
        dec_digits(counts[0])
    } else {
        render_counts(counts.drop_last()) + seq![' '] + dec_digits(counts.last())
    }
}

/// The full output line: the selected counts joined by spaces, one space,
/// then the label (possibly empty, leaving a trailing space).
pub open spec fn output_line(
    bytes: bool,
    chars: bool,
    lines: bool,
    words: bool,
    s: Seq<char>,
    label: Seq<char>,
) -> Seq<char> {
    render_counts(selected_counts(bytes, chars, lines, words, s)) + seq![' '] + label
}

/// Formats the output line for `data` under the given flags.
pub fn format_output(data: &Data, bytes: bool, chars: bool, lines: bool, words: bool) -> (r:
    String)
    ensures
        r@ == output_line(bytes, chars, lines, words, data.text(), data.label()),
{
    let ghost cs: Seq<nat> = selected_counts(bytes, chars, lines, words, data.text());
    let mut vc: Vec<usize> = Vec::new();
    if !bytes && !chars && !lines && !words {
        vc.push(data.get_lines());
        vc.push(data.get_words());
        vc.push(data.get_bytes());
    } else {
        if bytes {
            vc.push(data.get_bytes());
        }
        if chars {
            vc.push(data.get_chars());
        }
        if lines {
            vc.push(data.get_lines());
        }
        if words {
            vc.push(data.get_words());
        }
    }
    proof {
        assert(vc@.len() == cs.len());
        assert(forall|j: int| 0 <= j < cs.len() ==> vc@[j] == cs[j]);
    }
    let mut out = String::new();
    let mut i: usize = 0;
    proof {
        assert(cs.take(0) =~= Seq::<nat>::empty());
    }
    while i < vc.len()
        invariant
            i <= vc.len(),
            vc@.len() == cs.len(),
            forall|j: int| 0 <= j < cs.len() ==> vc@[j] == cs[j],
            out@ == render_counts(cs.take(i as int)),
        decreases vc.len() - i,
    {
        if i > 0 {
            out.append(" ");
        }
        let ds = to_decimal(vc[i]);
        out.append(ds.as_str());
        proof {
            reveal_strlit(" ");
            assert(cs.take(i as int + 1).drop_last() =~= cs.take(i as int));
            assert(cs.take(i as int + 1).last() == cs[i as int]);
            assert(out@ =~= render_counts(cs.take(i as int + 1)));
        }
        i = i + 1;
    }
    out.append(" ");
    out.append(data.path.as_str());
    proof {
        reveal_strlit(" ");
        assert(cs.take(vc@.len() as int) =~= cs);
        assert(out@ =~= output_line(bytes, chars, lines, words, data.text(), data.label()));
    }
    out
}

} // verus!
