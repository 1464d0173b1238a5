//! Fenced code blocks: each line of the block becomes a `<span>`, lines of a
//! `diff` block are coloured by their first character, and a region between
//! two fold markers becomes a `<details>` element whose summary is the first
//! line of the region.

use vstd::prelude::*;
use crate::escape::{encode_text, escape_text};
use crate::text::{has_prefix, push_str, split_lines, string_of, strip_trailing, trim_end_matches, chars_of, lemma_split_lines_nonempty};

verus! {

/// Where a walk through the lines of code blocks stands with respect to
/// foldable regions.
#[derive(Clone, Copy, Debug, PartialEq, Eq, Structural)]
pub struct FoldState {
    /// A fold marker has opened a region that no marker has closed.
    pub folded: bool,
    /// The next ordinary line is the summary of the open region.
    pub summary: bool,
}

pub open spec fn fold_start() -> Seq<char> {
    "### FOLD_START"@
}

pub open spec fn fold_end() -> Seq<char> {
    "### FOLD_END"@
}

pub open spec fn block_open() -> Seq<char> {
    "<pre><code>"@
}

pub open spec fn block_close() -> Seq<char> {
    "</code></pre>"@
}

pub open spec fn details_open() -> Seq<char> {
    "<details><summary class=\"foldable\">"@
}

pub open spec fn span_added() -> Seq<char> {
    "<span style=\"background: green; color: white;\">"@
}

pub open spec fn span_removed() -> Seq<char> {
    "<span style=\"background: red; color: white;\">"@
}

pub open spec fn span_plain() -> Seq<char> {
    "<span>"@
}

pub open spec fn span_close() -> Seq<char> {
    "</span>\n"@
}

/// The span that an empty last line leaves behind.
pub open spec fn empty_span() -> Seq<char> {
    "<span></span>\n"@
}

/// Whether a block with this language tag is coloured as a diff.
pub open spec fn is_diff(lang: Option<Seq<char>>) -> bool {
    lang == Some("diff"@)
}

/// `line` without its first character, if that is a space.
pub open spec fn strip_leading_space(line: Seq<char>) -> Seq<char> {
    if line.len() > 0 && line[0] == ' ' {
        line.skip(1)
    } else {
        line
    }
}

/// The opening tag of the span around an ordinary line.
pub open spec fn span_open(line: Seq<char>, diff: bool) -> Seq<char> {
    if diff && line.len() > 0 && line[0] == '+' {
        span_added()
    } else if diff && line.len() > 0 && line[0] == '-' {
        span_removed()
    } else {
        span_plain()
    }
}

/// The HTML that one line of a code block contributes.
pub open spec fn line_html(line: Seq<char>, diff: bool, st: FoldState) -> Seq<char> {
    if fold_start().is_prefix_of(line) {
        details_open()
    } else if fold_end().is_prefix_of(line) {
        "</details>"@
    } else if st.summary {
        escape_text(strip_leading_space(line)) + "</summary>"@
    } else {
        span_open(line, diff) + escape_text(line) + span_close()
    }
}

/// The fold state after one line.
pub open spec fn line_state(line: Seq<char>, st: FoldState) -> FoldState {
    if fold_start().is_prefix_of(line) {
        FoldState { folded: true, summary: true }
    } else if fold_end().is_prefix_of(line) {
        FoldState { folded: false, summary: st.summary }
    } else if st.summary {
        FoldState { folded: st.folded, summary: false }
    } else {
        st
    }
}

/// The fold state after `lines`, starting from `st`.
pub open spec fn lines_state(lines: Seq<Seq<char>>, st: FoldState) -> FoldState
    decreases lines.len(),
{
    if lines.len() == 0 {
        st
    } else {
        line_state(lines.last(), lines_state(lines.drop_last(), st))
    }
}

/// The HTML of `lines`, one after the other, starting from `st`.
pub open spec fn lines_html(lines: Seq<Seq<char>>, diff: bool, st: FoldState) -> Seq<char>
    decreases lines.len(),
{
    if lines.len() == 0 {
        Seq::<char>::empty()
    } else {
        lines_html(lines.drop_last(), diff, st) + line_html(
            lines.last(),
            diff,
            lines_state(lines.drop_last(), st),
        )
    }
}

/// The buffer of a code block after the text `text` has been added to it:
/// the lines of `text` follow what was there, and the spans of trailing
/// empty lines are dropped.
pub open spec fn code_text_html(buf: Seq<char>, text: Seq<char>, diff: bool, st: FoldState) -> Seq<
    char,
> {
    trim_end_matches(buf + lines_html(split_lines(text), diff, st), empty_span())
}

/// The HTML of a whole fenced block that holds the single text `text`.
pub open spec fn code_block_html(text: Seq<char>, diff: bool, st: FoldState) -> Seq<char> {
    code_text_html(block_open(), text, diff, st) + block_close()
}

/// Appends the HTML of one line, `v[from..to]`, to `buf`.
fn push_line(buf: &mut Vec<char>, v: &Vec<char>, from: usize, to: usize, diff: bool, st: &mut FoldState)
    requires
        from <= to <= v@.len(),
    ensures
        final(buf)@ == old(buf)@ + line_html(v@.subrange(from as int, to as int), diff, *old(st)),
        *final(st) == line_state(v@.subrange(from as int, to as int), *old(st)),
{
    let ghost line = v@.subrange(from as int, to as int);
    if has_prefix(v, from, to, "### FOLD_START") {
        st.folded = true;
        st.summary = true;
        push_str(buf, "<details><summary class=\"foldable\">");
    } else if has_prefix(v, from, to, "### FOLD_END") {
        st.folded = false;
        push_str(buf, "</details>");
    } else if st.summary {
        let skip: usize = if from < to && v[from] == ' ' {
            1
        } else {
            0
        };
        assert(v@.subrange(from + skip, to as int) == strip_leading_space(line));
        let text = string_of(v, from + skip, to);
        let escaped = encode_text(text.as_str());
        push_str(buf, escaped.as_str());
        push_str(buf, "</summary>");
        st.summary = false;
        assert(buf@ == old(buf)@ + (escape_text(strip_leading_space(line)) + "</summary>"@));
    } else {
        assert(from < to ==> line[0] == v@[from as int]);
        if diff && from < to && v[from] == '+' {
            push_str(buf, "<span style=\"background: green; color: white;\">");
        } else if diff && from < to && v[from] == '-' {
            push_str(buf, "<span style=\"background: red; color: white;\">");
        } else {
            push_str(buf, "<span>");
        }
        let text = string_of(v, from, to);
        let escaped = encode_text(text.as_str());
        push_str(buf, escaped.as_str());
        push_str(buf, "</span>\n");
        assert(buf@ == old(buf)@ + (span_open(line, diff) + escape_text(line) + span_close()));
    }
}

/// Adds the text of a code block to the block's buffer, line by line, and
/// drops the spans that trailing empty lines have left at the end of the
/// buffer. `st` says where the walk stands with respect to foldable regions,
/// and is moved on past the lines of `text`.
pub fn push_code_text(buf: &mut Vec<char>, text: &str, diff: bool, st: &mut FoldState)
    ensures
        final(buf)@ == code_text_html(old(buf)@, text@, diff, *old(st)),
        *final(st) == lines_state(split_lines(text@), *old(st)),
{
    let v = chars_of(text);
    let n = v.len();
    let mut start: usize = 0;
    let mut i: usize = 0;
    assert(v@.take(0) == Seq::<char>::empty());
    assert(split_lines(v@.take(0)).drop_last() == Seq::<Seq<char>>::empty());
    assert(v@.subrange(0, 0) == Seq::<char>::empty());
    while i < n
        invariant
            n == v@.len(),
            start <= i <= n,
            split_lines(v@.take(i as int)).len() >= 1,
            split_lines(v@.take(i as int)).last() == v@.subrange(start as int, i as int),
            buf@ == old(buf)@ + lines_html(split_lines(v@.take(i as int)).drop_last(), diff, *old(st)),
            *st == lines_state(split_lines(v@.take(i as int)).drop_last(), *old(st)),
        decreases n - i,
    {
        let ghost done = split_lines(v@.take(i as int));
        assert(v@.take(i + 1).drop_last() == v@.take(i as int));
        assert(v@.take(i + 1).last() == v@[i as int]);
        proof {
            lemma_split_lines_nonempty(v@.take(i + 1));
        }
        if v[i] == '\n' {
            push_line(buf, &v, start, i, diff, st);
            start = i + 1;
            assert(split_lines(v@.take(i + 1)) == done.push(Seq::<char>::empty()));
            assert(split_lines(v@.take(i + 1)).drop_last() == done);
            assert(done.drop_last().push(done.last()) == done);
            assert(v@.subrange(start as int, i + 1) == Seq::<char>::empty());
        } else {
            assert(split_lines(v@.take(i + 1)) == done.drop_last().push(
                done.last().push(v@[i as int]),
            ));
            assert(split_lines(v@.take(i + 1)).drop_last() == done.drop_last());
            assert(v@.subrange(start as int, i + 1) == v@.subrange(start as int, i as int).push(
                v@[i as int],
            ));
        }
        i += 1;
    }
    assert(v@.take(n as int) == v@);
    let ghost all = split_lines(v@);
    let ghost head = lines_html(all.drop_last(), diff, *old(st));
    push_line(buf, &v, start, n, diff, st);
    assert(buf@ == old(buf)@ + lines_html(all, diff, *old(st))) by {
        let last = line_html(all.last(), diff, lines_state(all.drop_last(), *old(st)));
        assert(buf@ == (old(buf)@ + head) + last);
        assert((old(buf)@ + head) + last == old(buf)@ + (head + last));
    }
    strip_trailing(buf, "<span></span>\n");
}

} // verus!
