//! Template sources that the library writes itself: the scaffold that puts
//! the HTML of an entry into the `content` block of a layout, and the
//! fragment of the `published_on` filter.

use vstd::prelude::*;
use vstd::string::*;

verus! {

/// The source of a template that extends the template at `wrapper_path` and
/// fills its `content` block with `body`.
pub open spec fn wrapped_template(body: Seq<char>, wrapper_path: Seq<char>) -> Seq<char> {
    "{% extends \""@ + wrapper_path + "\" %}\n{% block content %}\n"@ + body
        + "\n{% endblock %}"@
}

/// What the `published_on` filter puts out for a date: `iso` is the date
/// in its machine-readable form, `shown` the date as the reader sees it.
pub open spec fn published_on_fragment(iso: Seq<char>, shown: Seq<char>) -> Seq<char> {
    "Published on <time datetime=\""@ + iso + "\">"@ + shown + " UTC</time>"@
}

/// Writes the source of the template that wraps `body` in the layout at
/// `wrapper_path`.
pub fn wrap_in_template(body: &str, wrapper_path: &str) -> (source: String)
    ensures
        source@ == wrapped_template(body@, wrapper_path@),
{
    let mut source = String::new();
    source.append("{% extends \"");
    source.append(wrapper_path);
    source.append("\" %}\n{% block content %}\n");
    source.append(body);
    source.append("\n{% endblock %}");
    assert(source@ == wrapped_template(body@, wrapper_path@));
    source
}

/// Writes the fragment of the `published_on` filter.
pub fn published_on(iso: &str, shown: &str) -> (html: String)
    ensures
        html@ == published_on_fragment(iso@, shown@),
{
    let mut html = String::new();
    html.append("Published on <time datetime=\"");
    html.append(iso);
    html.append("\">");
    html.append(shown);
    html.append(" UTC</time>");
    assert(html@ == published_on_fragment(iso@, shown@));
    html
}

} // verus!
