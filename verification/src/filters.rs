//! What the page's template does to a value before it shows it.

use crate::text::{push_char, to_chars};
use crate::notation::canonical_text;
use crate::rational::Rational;
use vstd::prelude::*;

verus! {

/// The text with `<br/>` put before every line feed.
pub open spec fn with_line_breaks(s: Seq<char>) -> Seq<char>
    decreases s.len(),
{
    if s.len() == 0 {
        s
    } else if s.last() == '\n' {
        with_line_breaks(s.drop_last()) + seq!['<', 'b', 'r', '/', '>', '\n']
    } else {
        with_line_breaks(s.drop_last()).push(s.last())
    }
}

/// Marks every line feed of a text as a line break of the page.
pub fn br(s: &str) -> (text: String)
    ensures
        text@ == with_line_breaks(s@),
{
    let chars = to_chars(s);
    let mut text = String::new();
    let mut from: usize = 0;
    let mut i: usize = 0;
    proof {
        reveal_strlit("<br/>\n");
    }
    assert(chars@.take(0).len() == 0);
    while i < chars.len()
        invariant
            i <= chars.len(),
            text@ == with_line_breaks(chars@.take(i as int)),
        decreases chars.len() - i,
    {
        assert(chars@.take(i + 1).drop_last() == chars@.take(i as int));
        if chars[i] == '\n' {
            proof {
                reveal_strlit("<br/>\n");
            }
            text.append("<br/>\n");
            assert("<br/>\n"@ == seq!['<', 'b', 'r', '/', '>', '\n']);
        } else {
            push_char(&mut text, chars[i]);
        }
        i += 1;
    }
    assert(chars@.take(chars.len() as int) == chars@);
    text
}

/// A fraction as the page shows it: `N` for a whole number, else `N/D`.
pub fn frac2str(frac: Rational) -> (text: String)
    ensures
        text@ == canonical_text(frac@),
{
    frac.to_canonical_string()
}

} // verus!
