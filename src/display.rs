//! Right-aligned, styled display of a text within a column budget.

use vstd::prelude::*;

verus! {

/// Foreground colour code of the displayed text.
pub const FG_COLOR: &'static str = "30";

/// Background colour code of the displayed text.
pub const BG_COLOR: &'static str = "37";

/// Columns that a character takes: one for an ASCII character, two for any
/// other (taken to be a wide glyph).
pub open spec fn char_width(c: char) -> nat {
    if (c as u32) < 128 {
        1
    } else {
        2
    }
}

/// Columns that a text takes.
pub open spec fn text_width(s: Seq<char>) -> nat
    decreases s.len(),
{
    if s.len() == 0 {
        0
    } else {
        text_width(s.drop_last()) + char_width(s.last())
    }
}

/// Spaces put before a text so that it ends at the last of `cols` columns;
/// none when it does not fit.
pub open spec fn padding(s: Seq<char>, cols: nat) -> nat {
    if cols > text_width(s) {
        (cols - text_width(s)) as nat
    } else {
        0
    }
}

/// The terminal escape sequence that sets the colours, the text, and the
/// sequence that resets them.
pub open spec fn styled(s: Seq<char>, fg: Seq<char>, bg: Seq<char>) -> Seq<char> {
    seq!['\x1b', '['] + fg + seq![';'] + bg + seq!['m'] + s + seq!['\x1b', '[', '0', 'm']
}

/// The line shown for `s` in `cols` columns.
pub open spec fn composed(s: Seq<char>, cols: nat) -> Seq<char> {
    Seq::new(padding(s, cols), |i: int| ' ') + styled(s, FG_COLOR@, BG_COLOR@)
}

/// Wraps `text` in the escape sequences that show it in the given colours.
pub fn format_terminal_style(text: &str, fg_color: &str, bg_color: &str) -> (r: String)
    ensures
        r@ == styled(text@, fg_color@, bg_color@),
{
    let mut r = String::from_str("\x1b[");
    r.append(fg_color);
    r.append(";");
    r.append(bg_color);
    r.append("m");
    r.append(text);
    r.append("\x1b[0m");
    proof {
        reveal_strlit("\x1b[");
        reveal_strlit(";");
        reveal_strlit("m");
        reveal_strlit("\x1b[0m");
    }
    assert(r@ =~= styled(text@, fg_color@, bg_color@));
    r
}

/// Spaces needed before `text` so that it ends at the last of `cols`
/// columns.
pub fn padding_for(text: &str, cols: usize) -> (r: usize)
    ensures
        r == padding(text@, cols as nat),
{
    let n = text.unicode_len();
    let mut remaining: usize = cols;
    let mut i: usize = 0;
    assert(text@.take(0) =~= Seq::<char>::empty());
    while i < n
        invariant
            n == text@.len(),
            i <= n,
            remaining == padding(text@.take(i as int), cols as nat),
        decreases n - i,
    {
        let c = text.get_char(i);
        let w: usize = if (c as u32) < 128 {
            1
        } else {
            2
        };
        assert(text@.take(i + 1).drop_last() =~= text@.take(i as int));
        assert(w == char_width(text@.take(i + 1).last()));
        if w >= remaining {
            remaining = 0;
        } else {
            remaining = remaining - w;
        }
        i = i + 1;
    }
    assert(text@.take(n as int) =~= text@);
    remaining
}

/// The line that shows `text` right-aligned in `cols` columns, in the
/// widget's colours. Text wider than the budget is shown whole, without
/// padding.
pub fn compose(text: &str, cols: usize) -> (r: String)
    ensures
        r@ == composed(text@, cols as nat),
{
    let pad = padding_for(text, cols);
    let mut r = String::new();
    let mut i: usize = 0;
    while i < pad
        invariant
            i <= pad,
            r@ == Seq::new(i as nat, |k: int| ' '),
        decreases pad - i,
    {
        r.append(" ");
        proof {
            reveal_strlit(" ");
        }
        i = i + 1;
        assert(r@ =~= Seq::new(i as nat, |k: int| ' '));
    }
    let s = format_terminal_style(text, FG_COLOR, BG_COLOR);
    r.append(s.as_str());
    r
}

} // verus!
