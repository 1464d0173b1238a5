//! Headings: a first-level heading is written as it is, every other heading
//! gets an `id` made from its text and a link to itself.

use vstd::prelude::*;
use vstd::string::*;
use crate::text::{hyphenate, option_text, replace_spaces};
use crate::weburl::{all_fragment_safe, join, joined_url, set_fragment, url_with_fragment};

verus! {

/// The level of a heading, from `H1`, the highest, to `H6`.
#[derive(Clone, Copy, Debug, PartialEq, Eq, Structural)]
pub enum HeadingLevel {
    H1,
    H2,
    H3,
    H4,
    H5,
    H6,
}

impl HeadingLevel {
    /// The name of the HTML element for a heading of this level.
    pub open spec fn tag(self) -> Seq<char> {
        match self {
            HeadingLevel::H1 => "h1"@,
            HeadingLevel::H2 => "h2"@,
            HeadingLevel::H3 => "h3"@,
            HeadingLevel::H4 => "h4"@,
            HeadingLevel::H5 => "h5"@,
            HeadingLevel::H6 => "h6"@,
        }
    }

    /// The name of the HTML element for a heading of this level.
    pub fn tag_name(self) -> (name: &'static str)
        ensures
            name@ == self.tag(),
    {
        match self {
            HeadingLevel::H1 => "h1",
            HeadingLevel::H2 => "h2",
            HeadingLevel::H3 => "h3",
            HeadingLevel::H4 => "h4",
            HeadingLevel::H5 => "h5",
            HeadingLevel::H6 => "h6",
        }
    }
}

/// The lowercase form of a text, as `str::to_lowercase` gives it.
pub uninterp spec fn lowercased(s: Seq<char>) -> Seq<char>;

/// A text without the whitespace at its two ends, as `str::trim` gives it.
pub uninterp spec fn trimmed(s: Seq<char>) -> Seq<char>;

/// Calls `str::to_lowercase`.
#[verifier::external_body]
pub(crate) fn lowercase(s: &str) -> (r: String)
    ensures
        r@ == lowercased(s@),
{
    s.to_lowercase()
}

/// Calls `str::trim` and copies the slice it returns.
#[verifier::external_body]
pub(crate) fn trim(s: &str) -> (r: String)
    ensures
        r@ == trimmed(s@),
{
    s.trim().to_string()
}

/// The slug of a heading: its text with hyphens for spaces, in lowercase,
/// without whitespace at the ends.
pub open spec fn slug_of(text: Seq<char>) -> Seq<char> {
    trimmed(lowercased(hyphenate(text)))
}

/// The address of a heading: the page's address, which is `page_path`
/// resolved against `base`, with the slug as its fragment.
pub open spec fn heading_href(base: Seq<char>, page_path: Seq<char>, slug: Seq<char>) -> Option<
    Seq<char>,
> {
    match joined_url(base, page_path) {
        Some(page) => url_with_fragment(page, slug),
        None => None,
    }
}

/// A heading below the first level: the element carries the slug as its `id`
/// and holds a link to `href` around the text.
pub open spec fn linked_heading(tag: Seq<char>, slug: Seq<char>, href: Seq<char>, text: Seq<char>) -> Seq<
    char,
> {
    "<"@ + tag + " id=\""@ + slug + "\"><a href=\""@ + href + "\">"@ + text + "</a></"@ + tag
        + ">"@
}

/// The HTML of a heading; `None` where the heading needs an address and
/// none can be made from `base` and `page_path`.
pub open spec fn heading_html(level: HeadingLevel, text: Seq<char>, base: Seq<char>, page_path: Seq<char>) -> Option<
    Seq<char>,
> {
    if level == HeadingLevel::H1 {
        Some("<h1>"@ + text + "</h1>"@)
    } else {
        match heading_href(base, page_path, slug_of(text)) {
            Some(href) => Some(linked_heading(level.tag(), slug_of(text), href, text)),
            None => None,
        }
    }
}

/// The slug of the heading text `text`.
pub fn slug(text: &str) -> (r: String)
    ensures
        r@ == slug_of(text@),
{
    let hyphenated = replace_spaces(text);
    let lower = lowercase(hyphenated.as_str());
    trim(lower.as_str())
}

/// The address of the heading with slug `slug` on the page at `page_path`.
/// A slug of characters that a fragment holds unchanged ends the address,
/// after a `#`.
pub fn href(base: &str, page_path: &str, slug: &str) -> (r: Option<String>)
    ensures
        option_text(r) == heading_href(base@, page_path@, slug@),
        r.is_some() && all_fragment_safe(slug@) ==> (seq!['#'] + slug@).is_suffix_of(r.unwrap()@),
{
    match join(base, page_path) {
        Some(page) => set_fragment(page.as_str(), slug),
        None => None,
    }
}

/// Writes a heading out as HTML. The `id` of a heading below the first
/// level is the slug of its text, and where the slug is made of characters
/// that a fragment holds unchanged, the address in its link ends with `#`
/// and the slug.
pub fn render_heading(level: HeadingLevel, text: &str, base: &str, page_path: &str) -> (r: Option<String>)
    ensures
        option_text(r) == heading_html(level, text@, base@, page_path@),
        r.is_some() && level != HeadingLevel::H1 ==> exists|address: Seq<char>|
            {
                &&& r.unwrap()@ == #[trigger] linked_heading(
                    level.tag(),
                    slug_of(text@),
                    address,
                    text@,
                )
                &&& all_fragment_safe(slug_of(text@)) ==> (seq!['#'] + slug_of(text@)).is_suffix_of(
                    address,
                )
            },
{
    let mut out = String::new();
    if level == HeadingLevel::H1 {
        out.append("<h1>");
        out.append(text);
        out.append("</h1>");
        assert(out@ == "<h1>"@ + text@ + "</h1>"@);
        return Some(out);
    }
    let slug = slug(text);
    match href(base, page_path, slug.as_str()) {
        None => None,
        Some(address) => {
            let tag = level.tag_name();
            out.append("<");
            out.append(tag);
            out.append(" id=\"");
            out.append(slug.as_str());
            out.append("\"><a href=\"");
            out.append(address.as_str());
            out.append("\">");
            out.append(text);
            out.append("</a></");
            out.append(tag);
            out.append(">");
            assert(out@ == linked_heading(level.tag(), slug@, address@, text@));
            Some(out)
        },
    }
}

} // verus!
