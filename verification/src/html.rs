//! Escaping of text that is put into HTML.

use crate::text::push_char;
use vstd::prelude::*;

verus! {

/// What stands for the character `c` in HTML: a named entity for `&`, `<`,
/// `>` and `"`, the character itself for any other.
pub open spec fn escaped_char(c: char) -> Seq<char> {
    if c == '&' {
        "&amp;"@
    } else if c == '<' {
        "&lt;"@
    } else if c == '>' {
        "&gt;"@
    } else if c == '"' {
        "&quot;"@
    } else {
        seq![c]
    }
}

/// The text with each of its characters escaped, in order.
pub open spec fn escaped(text: Seq<char>) -> Seq<char>
    decreases text.len(),
{
    if text.len() == 0 {
        Seq::empty()
    } else {
        escaped(text.drop_last()) + escaped_char(text.last())
    }
}

/// Escapes `text` for HTML.
pub fn escape_html(text: &str) -> (html: String)
    ensures
        html@ == escaped(text@),
{
    let mut html = String::new();
    for c in it: text.chars()
        invariant
            it.seq() == text@,
            html@ == escaped(text@.subrange(0, it.index() as int)),
    {
        let ghost before = text@.subrange(0, it.index() as int);
        let ghost grown = text@.subrange(0, it.index() + 1);
        proof {
            assert(grown.drop_last() =~= before);
            assert(grown.last() == c);
        }
        if c == '&' {
            html.append("&amp;");
        } else if c == '<' {
            html.append("&lt;");
        } else if c == '>' {
            html.append("&gt;");
        } else if c == '"' {
            html.append("&quot;");
        } else {
            push_char(&mut html, c);
            assert(html@ =~= escaped(before) + seq![c]);
        }
    }
    assert(text@.subrange(0, text@.len() as int) =~= text@);
    html
}

} // verus!
