//! Escaping text for use between HTML tags.

use vstd::prelude::*;

verus! {

/// What one character becomes: the three characters that HTML reads as
/// markup turn into entities, every other character stays.
pub open spec fn escape_char(c: char) -> Seq<char> {
    if c == '&' {
        "&amp;"@
    } else if c == '<' {
        "&lt;"@
    } else if c == '>' {
        "&gt;"@
    } else {
        seq![c]
    }
}

/// `s` with each character escaped in place.
pub open spec fn escape_text(s: Seq<char>) -> Seq<char>
    decreases s.len(),
{
    if s.len() == 0 {
        Seq::<char>::empty()
    } else {
        escape_text(s.drop_last()) + escape_char(s.last())
    }
}

/// Calls `html_escape::encode_text`, which copies its input and replaces
/// every `&` by `&amp;`, every `<` by `&lt;` and every `>` by `&gt;`.
#[verifier::external_body]
pub(crate) fn encode_text(s: &str) -> (r: String)
    ensures
        r@ == escape_text(s@),
{
    html_escape::encode_text(s).into_owned()
}

} // verus!
