//! The HTML message style of the chat transport: escaping and the few tags
//! that the bot's messages use.

use vstd::prelude::*;
use crate::text::chars_of;

verus! {

/// What one character becomes when escaped: `&`, `<` and `>` turn into their
/// entities, every other character stays.
pub open spec fn escaped_char(c: char) -> Seq<char> {
    if c == '&' {
        "&amp;"@
    } else if c == '<' {
        "&lt;"@
    } else if c == '>' {
        "&gt;"@
    } else {
        seq![c]
    }
}

/// A text with each of its characters escaped.
pub open spec fn escaped(s: Seq<char>) -> Seq<char>
    decreases s.len(),
{
    if s.len() == 0 {
        Seq::empty()
    } else {
        escaped(s.drop_last()) + escaped_char(s.last())
    }
}

/// `s` in bold; `s` may hold markup of its own and is not escaped.
pub open spec fn spec_bold(s: Seq<char>) -> Seq<char> {
    "<b>"@ + s + "</b>"@
}

/// `s`, escaped, as inline code.
pub open spec fn spec_code_inline(s: Seq<char>) -> Seq<char> {
    "<code>"@ + escaped(s) + "</code>"@
}

/// A link to `url` that shows `text`, both escaped.
pub open spec fn spec_link(url: Seq<char>, text: Seq<char>) -> Seq<char> {
    "<a href=\""@ + escaped(url) + "\">"@ + escaped(text) + "</a>"@
}

/// Appends `s`, escaped, to `out`.
pub fn push_escaped(out: &mut String, s: &str)
    ensures
        final(out)@ == old(out)@ + escaped(s@),
{
    let chars = chars_of(s);
    let mut i: usize = 0;
    while i < chars.len()
        invariant
            i <= chars.len(),
            out@ == old(out)@ + escaped(chars@.take(i as int)),
        decreases chars.len() - i,
    {
        let c = chars[i];
        let ghost before = out@;
        if c == '&' {
            out.append("&amp;");
        } else if c == '<' {
            out.append("&lt;");
        } else if c == '>' {
            out.append("&gt;");
        } else {
            out.push(c);
        }
        i += 1;
        proof {
            let t = chars@.take(i as int);
            assert(t.drop_last() =~= chars@.take(i - 1));
            assert(t.last() == c);
            assert(out@ =~= before + escaped_char(c));
            assert(out@ =~= old(out)@ + escaped(t));
        }
    }
    assert(chars@.take(i as int) =~= chars@);
}

/// Escapes a text for the HTML message style.
pub fn escape(s: &str) -> (out: String)
    ensures
        out@ == escaped(s@),
{
    let mut out = String::new();
    push_escaped(&mut out, s);
    assert(out@ =~= escaped(s@));
    out
}

/// Puts `s` in bold.
pub fn bold(s: &str) -> (out: String)
    ensures
        out@ == spec_bold(s@),
{
    let mut out = String::new();
    out.append("<b>");
    out.append(s);
    out.append("</b>");
    assert(out@ =~= spec_bold(s@));
    out
}

/// Formats `s` as inline code.
pub fn code_inline(s: &str) -> (out: String)
    ensures
        out@ == spec_code_inline(s@),
{
    let mut out = String::new();
    out.append("<code>");
    push_escaped(&mut out, s);
    out.append("</code>");
    assert(out@ =~= spec_code_inline(s@));
    out
}

/// Builds a link to `url` that shows `text`.
pub fn link(url: &str, text: &str) -> (out: String)
    ensures
        out@ == spec_link(url@, text@),
{
    let mut out = String::new();
    out.append("<a href=\"");
    push_escaped(&mut out, url);
    out.append("\">");
    push_escaped(&mut out, text);
    out.append("</a>");
    assert(out@ =~= spec_link(url@, text@));
    out
}

} // verus!
