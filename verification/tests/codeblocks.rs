use puggle::codeblock::{push_code_text, FoldState};
use puggle::text::{chars_of, has_prefix, has_suffix, push_str, replace_spaces, string_of, strip_trailing};

const GREEN: &str = "<span style=\"background: green; color: white;\">";
const RED: &str = "<span style=\"background: red; color: white;\">";

fn fresh() -> FoldState {
    FoldState { folded: false, summary: false }
}

fn block_from(text: &str, diff: bool, st: &mut FoldState) -> String {
    let mut buf: Vec<char> = "<pre><code>".chars().collect();
    push_code_text(&mut buf, text, diff, st);
    let mut html: String = buf.into_iter().collect();
    html.push_str("</code></pre>");
    html
}

fn block(text: &str, diff: bool) -> String {
    block_from(text, diff, &mut fresh())
}

#[test]
fn empty_code_text_leaves_an_empty_block() {
    assert_eq!(block("", false), "<pre><code></code></pre>");
}

#[test]
fn every_line_gets_a_span() {
    assert_eq!(
        block("let a = 1;\nlet b = 2;\n", false),
        "<pre><code><span>let a = 1;</span>\n<span>let b = 2;</span>\n</code></pre>"
    );
}

#[test]
fn text_without_final_line_feed_keeps_its_last_line() {
    assert_eq!(block("one\ntwo", false), "<pre><code><span>one</span>\n<span>two</span>\n</code></pre>");
}

#[test]
fn diff_lines_are_coloured_by_their_first_character() {
    let expected = format!(
        "<pre><code>{GREEN}+added</span>\n{RED}-removed</span>\n<span> context</span>\n</code></pre>"
    );
    assert_eq!(block("+added\n-removed\n context\n", true), expected);
}

#[test]
fn only_diff_blocks_are_coloured() {
    assert_eq!(
        block("+added\n-removed\n", false),
        "<pre><code><span>+added</span>\n<span>-removed</span>\n</code></pre>"
    );
}

#[test]
fn code_is_escaped() {
    assert_eq!(
        block("if a < b && b > c {}\n", false),
        "<pre><code><span>if a &lt; b &amp;&amp; b &gt; c {}</span>\n</code></pre>"
    );
}

#[test]
fn diff_line_is_escaped_inside_its_span() {
    let expected = format!("<pre><code>{GREEN}+a<b</span>\n</code></pre>").replace("a<b", "a&lt;b");
    assert_eq!(block("+a<b\n", true), expected);
}

#[test]
fn fold_markers_make_a_details_element() {
    let text = "### FOLD_START\n Summary text\nlet x = 1;\n### FOLD_END\n";
    assert_eq!(
        block(text, false),
        "<pre><code><details><summary class=\"foldable\">Summary text</summary><span>let x = 1;</span>\n</details></code></pre>"
    );
}

#[test]
fn summary_loses_one_leading_space_only() {
    let text = "### FOLD_START\n  two spaces\n### FOLD_END";
    assert_eq!(
        block(text, false),
        "<pre><code><details><summary class=\"foldable\"> two spaces</summary></details></code></pre>"
    );
}

#[test]
fn summary_is_escaped() {
    let text = "### FOLD_START\nVec<u8>\n### FOLD_END";
    assert_eq!(
        block(text, false),
        "<pre><code><details><summary class=\"foldable\">Vec&lt;u8&gt;</summary></details></code></pre>"
    );
}

#[test]
fn fold_state_moves_with_the_markers() {
    let mut st = fresh();
    block_from("### FOLD_START", false, &mut st);
    assert_eq!(st, FoldState { folded: true, summary: true });
    block_from("the summary", false, &mut st);
    assert_eq!(st, FoldState { folded: true, summary: false });
    block_from("### FOLD_END", false, &mut st);
    assert_eq!(st, FoldState { folded: false, summary: false });
}

#[test]
fn summary_can_come_with_a_later_text() {
    let mut st = fresh();
    let first = block_from("### FOLD_START", false, &mut st);
    assert_eq!(first, "<pre><code><details><summary class=\"foldable\"></code></pre>");
    let second = block_from(" later\ncode\n", false, &mut st);
    assert_eq!(second, "<pre><code>later</summary><span>code</span>\n</code></pre>");
}

#[test]
fn trailing_blank_lines_leave_no_spans() {
    assert_eq!(block("a\n\n\n", false), "<pre><code><span>a</span>\n</code></pre>");
}

#[test]
fn blank_lines_inside_stay() {
    assert_eq!(
        block("a\n\nb\n", false),
        "<pre><code><span>a</span>\n<span></span>\n<span>b</span>\n</code></pre>"
    );
}

#[test]
fn same_input_gives_same_html() {
    let text = "+one\n### FOLD_START\n s\n-two\n### FOLD_END\n";
    assert_eq!(block(text, true), block(text, true));
}

#[test]
fn chars_and_strings_round_trip() {
    let v = chars_of("héllo");
    assert_eq!(v, vec!['h', 'é', 'l', 'l', 'o']);
    assert_eq!(string_of(&v, 1, 4), "éll");
    assert_eq!(string_of(&v, 2, 2), "");
}

#[test]
fn prefixes_and_suffixes() {
    let v = chars_of("### FOLD_START here");
    assert!(has_prefix(&v, 0, v.len(), "### FOLD_START"));
    assert!(!has_prefix(&v, 1, v.len(), "### FOLD_START"));
    assert!(!has_prefix(&v, 0, 5, "### FOLD_START"));
    assert!(has_prefix(&v, 4, 8, "FOLD"));
    assert!(has_suffix(&v, &chars_of("here")));
    assert!(!has_suffix(&v, &chars_of("there")));
    assert!(has_suffix(&v, &chars_of("")));
}

#[test]
fn strip_trailing_removes_every_repetition() {
    let mut buf = chars_of("xabab");
    strip_trailing(&mut buf, "ab");
    assert_eq!(buf, vec!['x']);
    let mut other = chars_of("abx");
    strip_trailing(&mut other, "ab");
    assert_eq!(other, chars_of("abx"));
    let mut same = chars_of("abx");
    strip_trailing(&mut same, "");
    assert_eq!(same, chars_of("abx"));
}

#[test]
fn push_str_appends() {
    let mut buf = chars_of("ab");
    push_str(&mut buf, "cd");
    assert_eq!(buf, chars_of("abcd"));
}

#[test]
fn spaces_become_hyphens() {
    assert_eq!(replace_spaces("a b  c"), "a-b--c");
    assert_eq!(replace_spaces(""), "");
}
