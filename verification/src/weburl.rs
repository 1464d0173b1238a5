//! URLs, as the `url` crate resolves and writes them.

use vstd::prelude::*;
use crate::text::option_text;

verus! {

/// The URL that `reference` resolves to against `base`, as text; `None` where
/// `base` is no absolute URL or the reference cannot be resolved against it.
pub uninterp spec fn joined_url(base: Seq<char>, reference: Seq<char>) -> Option<Seq<char>>;

/// The URL `url` with its fragment replaced by `fragment`, as text; `None`
/// where `url` is no absolute URL.
pub uninterp spec fn url_with_fragment(url: Seq<char>, fragment: Seq<char>) -> Option<Seq<char>>;

/// Whether a character stands for itself in a fragment: printable ASCII
/// other than the space, the double quote, the angle brackets and the
/// backtick.
pub open spec fn fragment_safe(c: char) -> bool {
    &&& 0x21 <= c as u32 <= 0x7e
    &&& c != '"'
    &&& c != '<'
    &&& c != '>'
    &&& c != '`'
}

/// Whether every character of `s` is `fragment_safe`.
pub open spec fn all_fragment_safe(s: Seq<char>) -> bool {
    forall|i: int| 0 <= i < s.len() ==> fragment_safe(#[trigger] s[i])
}

/// Parses `base` with `Url::parse`, resolves `reference` against it with
/// `Url::join` and writes the result out. Either step can fail.
#[verifier::external_body]
pub(crate) fn join(base: &str, reference: &str) -> (r: Option<String>)
    ensures
        option_text(r) == joined_url(base@, reference@),
{
    let url = url::Url::parse(base).ok()?.join(reference).ok()?;
    Some(url.to_string())
}

/// Parses `url` with `Url::parse`, replaces its fragment with
/// `Url::set_fragment` and writes the result out. `set_fragment` cuts the old
/// fragment off, appends `#`, and then appends the new fragment with tabs and
/// line breaks left out and the characters that are not `fragment_safe`
/// percent-encoded: a fragment of safe characters only ends the result as it
/// is.
#[verifier::external_body]
pub(crate) fn set_fragment(url: &str, fragment: &str) -> (r: Option<String>)
    ensures
        option_text(r) == url_with_fragment(url@, fragment@),
        r.is_some() && all_fragment_safe(fragment@) ==> (seq!['#'] + fragment@).is_suffix_of(
            r.unwrap()@,
        ),
{
    let mut parsed = url::Url::parse(url).ok()?;
    parsed.set_fragment(Some(fragment));
    Some(parsed.to_string())
}

} // verus!
