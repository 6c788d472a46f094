//! How a reported version reads on one line.

use vstd::prelude::*;
use vstd::string::*;
use vstd::utf8::encode_utf8;

use crate::version::Version;

verus! {

/// The column at which the yanked marker ends up for short version numbers.
pub const MARKER_COLUMN: usize = 20;

/// The width to which a list index is right-aligned.
pub const INDEX_WIDTH: usize = 3;

/// `n` space characters.
pub open spec fn spaces(n: nat) -> Seq<char> {
    Seq::new(n, |_i: int| ' ')
}

/// Length of `s` in bytes once encoded as UTF-8.
pub open spec fn byte_len(s: Seq<char>) -> nat {
    encode_utf8(s).len()
}

/// Number of spaces between a version number and the yanked marker: what
/// the number's bytes leave of the marker column, and none once they reach it.
pub open spec fn gap_width(num: Seq<char>) -> nat {
    if byte_len(num) < MARKER_COLUMN {
        (MARKER_COLUMN - byte_len(num)) as nat
    } else {
        0
    }
}

/// The decimal digit for `d < 10`.
pub open spec fn digit_char(d: nat) -> char {
    if d == 0 { '0' }
    else if d == 1 { '1' }
    else if d == 2 { '2' }
    else if d == 3 { '3' }
    else if d == 4 { '4' }
    else if d == 5 { '5' }
    else if d == 6 { '6' }
    else if d == 7 { '7' }
    else if d == 8 { '8' }
    else { '9' }
}

/// `n` written in decimal, without leading zeros.
pub open spec fn decimal(n: nat) -> Seq<char>
    decreases n,
{
    if n < 10 {
        seq![digit_char(n)]
    } else {
        decimal(n / 10).push(digit_char(n % 10))
    }
}

/// `s` preceded by spaces up to `width` characters; `s` itself when it is
/// already that wide.
pub open spec fn right_aligned(s: Seq<char>, width: nat) -> Seq<char> {
    if s.len() < width {
        spaces((width - s.len()) as nat) + s
    } else {
        s
    }
}

/// `name = "num"`.
pub open spec fn entry_text(name: Seq<char>, num: Seq<char>) -> Seq<char> {
    name + seq![' ', '=', ' ', '"'] + num + seq!['"']
}

/// `[idx] ` with the index right-aligned to three characters.
pub open spec fn index_label(idx: nat) -> Seq<char> {
    seq!['['] + right_aligned(decimal(idx), INDEX_WIDTH as nat) + seq![']', ' ']
}

/// The word that follows a yanked version.
pub open spec fn marker() -> Seq<char> {
    seq!['y', 'a', 'n', 'k', 'e', 'd']
}

/// A reported line: its text, and for a yanked version the spaces that
/// precede the marker. The marker itself is left to the printer, which may
/// style it.
pub struct Line {
    pub text: String,
    pub gap: String,
    pub yanked: bool,
}

/// `l` reports `v` with the text `text`.
pub open spec fn shows(l: Line, text: Seq<char>, v: Version) -> bool {
    &&& l.text@ == text
    &&& l.yanked == v.yanked
    &&& l.gap@ == if v.yanked {
        spaces(gap_width(v.num@))
    } else {
        Seq::<char>::empty()
    }
}

/// What a line reads once the marker is written out in full.
pub open spec fn plain_text(l: Line) -> Seq<char> {
    if l.yanked {
        l.text@ + l.gap@ + marker()
    } else {
        l.text@
    }
}

impl Line {
    /// The whole line as unstyled text.
    pub fn plain(&self) -> (r: String)
        ensures
            r@ == plain_text(*self),
    {
        let mut r = self.text.clone();
        if self.yanked {
            r.append(self.gap.as_str());
            let m = yanked_marker();
            r.append(m.as_str());
        }
        r
    }
}

/// The marker written after a yanked version.
pub fn yanked_marker() -> (r: String)
    ensures
        r@ == marker(),
{
    proof {
        reveal_strlit("yanked");
    }
    String::from_str("yanked")
}

fn digit_str(d: usize) -> (r: &'static str)
    requires
        d < 10,
    ensures
        r@ == seq![digit_char(d as nat)],
{
    proof {
        reveal_strlit("0");
        reveal_strlit("1");
        reveal_strlit("2");
        reveal_strlit("3");
        reveal_strlit("4");
        reveal_strlit("5");
        reveal_strlit("6");
        reveal_strlit("7");
        reveal_strlit("8");
        reveal_strlit("9");
    }
    if d == 0 { "0" }
    else if d == 1 { "1" }
    else if d == 2 { "2" }
    else if d == 3 { "3" }
    else if d == 4 { "4" }
    else if d == 5 { "5" }
    else if d == 6 { "6" }
    else if d == 7 { "7" }
    else if d == 8 { "8" }
    else { "9" }
}

fn push_decimal(out: &mut String, n: usize)
    ensures
        final(out)@ == old(out)@ + decimal(n as nat),
    decreases n,
{
    if n >= 10 {
        push_decimal(out, n / 10);
    }
    let d = digit_str(n % 10);
    out.append(d);
    proof {
        assert(final(out)@ =~= old(out)@ + decimal(n as nat));
    }
}

fn push_spaces(out: &mut String, n: usize)
    ensures
        final(out)@ == old(out)@ + spaces(n as nat),
{
    let ghost start = out@;
    let mut i: usize = 0;
    while i < n
        invariant
            i <= n,
            out@ =~= start + spaces(i as nat),
        decreases n - i,
    {
        proof {
            reveal_strlit(" ");
        }
        out.append(" ");
        assert(spaces((i + 1) as nat) =~= spaces(i as nat).push(' '));
        i = i + 1;
    }
}

/// Number of spaces written between `num` and the yanked marker; never
/// negative, and zero for a number of twenty bytes or more.
pub fn gap_before_marker(num: &str) -> (r: usize)
    ensures
        r == gap_width(num@),
        byte_len(num@) >= MARKER_COLUMN ==> r == 0,
{
    broadcast use vstd::slice::group_slice_axioms;

    let n = num.as_bytes().len();
    if n < MARKER_COLUMN {
        MARKER_COLUMN - n
    } else {
        0
    }
}

fn line_of(text: String, v: &Version) -> (r: Line)
    ensures
        shows(r, text@, *v),
{
    let mut gap = String::new();
    if v.yanked {
        let width = gap_before_marker(v.num.as_str());
        push_spaces(&mut gap, width);
        assert(gap@ =~= spaces(gap_width(v.num@)));
    }
    Line { text, gap, yanked: v.yanked }
}

/// The line `name = "num"` for version `v`.
pub fn entry_line(name: &str, v: &Version) -> (r: Line)
    ensures
        shows(r, entry_text(name@, v.num@), *v),
{
    proof {
        reveal_strlit(" = \"");
        reveal_strlit("\"");
    }
    let mut text = String::from_str(name);
    text.append(" = \"");
    text.append(v.num.as_str());
    text.append("\"");
    assert(text@ =~= entry_text(name@, v.num@));
    line_of(text, v)
}

/// The line `[idx] name = "num"` for version `v`, the index right-aligned
/// to three characters.
pub fn indexed_line(name: &str, idx: usize, v: &Version) -> (r: Line)
    ensures
        shows(r, index_label(idx as nat) + entry_text(name@, v.num@), *v),
{
    proof {
        reveal_strlit("[");
        reveal_strlit("] ");
        reveal_strlit(" = \"");
        reveal_strlit("\"");
    }
    let mut digits = String::new();
    push_decimal(&mut digits, idx);
    assert(digits@ =~= decimal(idx as nat));
    let width = digits.as_str().unicode_len();
    let mut text = String::from_str("[");
    if width < INDEX_WIDTH {
        push_spaces(&mut text, INDEX_WIDTH - width);
    }
    text.append(digits.as_str());
    text.append("] ");
    text.append(name);
    text.append(" = \"");
    text.append(v.num.as_str());
    text.append("\"");
    assert(text@ =~= index_label(idx as nat) + entry_text(name@, v.num@));
    line_of(text, v)
}

} // verus!
