use puggle::error::ParseFilesError;
use puggle::heading::HeadingLevel;
use puggle::markdown::{read_markdown, Emitted, EventKind, SourceEvent};
use puggle::rewrite::{parse, rewrite_markdown};
use puggle::site::Config;

fn config() -> Config {
    Config {
        pages: Vec::new(),
        templates_dir: "templates".to_string(),
        dest_dir: "dist".to_string(),
        base_url: "https://example.com/".to_string(),
    }
}

fn html_of(markdown: &str) -> String {
    rewrite_markdown(&config(), markdown, "blog/post").unwrap().html
}

fn htmls(events: &[Emitted]) -> Vec<String> {
    events
        .iter()
        .filter_map(|e| match e {
            Emitted::Html(html) => Some(html.clone()),
            Emitted::Forward(_) => None,
        })
        .collect()
}

#[test]
fn minimal_entry() {
    let markdown = "---\ntitle: \"Hi\"\ntags: []\n---\n# Hello";
    let partial = rewrite_markdown(&config(), markdown, "blog/hello").unwrap();
    assert_eq!(partial.front_matter, Some("title: \"Hi\"\ntags: []\n".to_string()));
    assert_eq!(partial.html, "<h1>Hello</h1>");
}

#[test]
fn document_without_front_matter_has_none() {
    let partial = rewrite_markdown(&config(), "# Hello\n\ntext", "blog/hello").unwrap();
    assert_eq!(partial.front_matter, None);
    assert_eq!(partial.html, "<h1>Hello</h1>\n<p>text</p>\n");
}

#[test]
fn diff_code_block() {
    let html = html_of("```diff\n+added\n-removed\n context\n```\n");
    assert_eq!(
        html,
        "<pre><code><span style=\"background: green; color: white;\">+added</span>\n<span style=\"background: red; color: white;\">-removed</span>\n<span> context</span>\n</code></pre>"
    );
}

#[test]
fn foldable_block() {
    let html = html_of("```rust\n### FOLD_START\n Summary text\nlet x = 1;\n### FOLD_END\n```\n");
    assert_eq!(
        html,
        "<pre><code><details><summary class=\"foldable\">Summary text</summary><span>let x = 1;</span>\n</details></code></pre>"
    );
}

#[test]
fn empty_fenced_code_block() {
    assert_eq!(html_of("```\n```\n"), "<pre><code></code></pre>");
}

#[test]
fn plus_lines_outside_diff_blocks_are_neutral() {
    assert_eq!(html_of("```text\n+added\n```\n"), "<pre><code><span>+added</span>\n</code></pre>");
}

#[test]
fn code_block_in_a_quote_is_one_block() {
    let html = html_of("> ```\n> a\n> b\n> ```\n");
    assert_eq!(
        html,
        "<blockquote>\n<pre><code><span>a</span>\n<span>b</span>\n</code></pre></blockquote>\n"
    );
}

#[test]
fn second_level_heading_gets_id_and_link() {
    assert_eq!(
        html_of("## My Title"),
        "<h2 id=\"my-title\"><a href=\"https://example.com/blog/post#my-title\">My Title</a></h2>"
    );
}

#[test]
fn heading_takes_inline_code_as_plain_text() {
    assert_eq!(
        html_of("### Using `parse` twice"),
        "<h3 id=\"using-parse-twice\"><a href=\"https://example.com/blog/post#using-parse-twice\">Using parse twice</a></h3>"
    );
}

#[test]
fn heading_text_is_not_forwarded() {
    assert_eq!(html_of("# One\n\n## Two\n"), "<h1>One</h1><h2 id=\"two\"><a href=\"https://example.com/blog/post#two\">Two</a></h2>");
}

#[test]
fn everything_else_is_passed_on() {
    assert_eq!(
        html_of("some *text* with `code`\n\n- [x] done\n"),
        "<p>some <em>text</em> with <code>code</code></p>\n<ul>\n<li><input disabled=\"\" type=\"checkbox\" checked=\"\"/>\ndone</li>\n</ul>\n"
    );
}

#[test]
fn heading_that_needs_an_address_fails_without_a_base() {
    let mut config = config();
    config.base_url = "nonsense".to_string();
    match rewrite_markdown(&config, "## Two", "blog/post") {
        Err(ParseFilesError::Address(path)) => assert_eq!(path, "blog/post"),
        other => panic!("unexpected: {:?}", other.map(|p| p.html)),
    }
    assert_eq!(rewrite_markdown(&config, "# One", "blog/post").unwrap().html, "<h1>One</h1>");
}

#[test]
fn events_are_read_by_their_kind() {
    let events = read_markdown("---\nk: v\n---\n## T `c`\n\n```rs\nx\n```\n");
    let kinds: Vec<String> = events
        .iter()
        .map(|e| match &e.kind {
            EventKind::MetadataStart => "meta+".to_string(),
            EventKind::MetadataEnd => "meta-".to_string(),
            EventKind::Text(t) => format!("text:{t}"),
            EventKind::Code(t) => format!("code:{t}"),
            EventKind::FencedCodeStart(l) => format!("fence:{l}"),
            EventKind::CodeBlockEnd => "fence-".to_string(),
            EventKind::HeadingStart => "h+".to_string(),
            EventKind::HeadingEnd(HeadingLevel::H2) => "h2-".to_string(),
            EventKind::HeadingEnd(_) => "h?-".to_string(),
            EventKind::Other => "other".to_string(),
        })
        .collect();
    assert_eq!(
        kinds,
        vec!["meta+", "text:k: v\n", "meta-", "h+", "text:T ", "code:c", "h2-", "fence:rs", "text:x\n", "fence-"]
    );
}

#[test]
fn parse_takes_the_last_front_matter_text() {
    let events = vec![
        SourceEvent::read(pulldown_cmark::Event::Start(pulldown_cmark::Tag::MetadataBlock(
            pulldown_cmark::MetadataBlockKind::YamlStyle,
        ))),
        SourceEvent::read(pulldown_cmark::Event::Text("first".into())),
        SourceEvent::read(pulldown_cmark::Event::Text("second".into())),
        SourceEvent::read(pulldown_cmark::Event::End(pulldown_cmark::TagEnd::MetadataBlock(
            pulldown_cmark::MetadataBlockKind::YamlStyle,
        ))),
        SourceEvent::read(pulldown_cmark::Event::Text("body".into())),
    ];
    let rewritten = parse(&config(), events, "p/e").unwrap();
    assert_eq!(rewritten.front_matter, Some("second".to_string()));
    assert_eq!(rewritten.events.len(), 5);
    assert!(htmls(&rewritten.events).is_empty());
}

#[test]
fn parse_ends_an_unfenced_block_with_empty_html() {
    let events = vec![
        SourceEvent::read(pulldown_cmark::Event::Start(pulldown_cmark::Tag::CodeBlock(
            pulldown_cmark::CodeBlockKind::Indented,
        ))),
        SourceEvent::read(pulldown_cmark::Event::Text("x\n".into())),
        SourceEvent::read(pulldown_cmark::Event::End(pulldown_cmark::TagEnd::CodeBlock)),
    ];
    let rewritten = parse(&config(), events, "p/e").unwrap();
    assert_eq!(rewritten.events.len(), 3);
    assert_eq!(htmls(&rewritten.events), vec![String::new()]);
}

#[test]
fn parse_keeps_the_language_of_the_last_fence() {
    let fence = |lang: &'static str| {
        SourceEvent::read(pulldown_cmark::Event::Start(pulldown_cmark::Tag::CodeBlock(
            pulldown_cmark::CodeBlockKind::Fenced(lang.into()),
        )))
    };
    let end = || SourceEvent::read(pulldown_cmark::Event::End(pulldown_cmark::TagEnd::CodeBlock));
    let text = |t: &'static str| SourceEvent::read(pulldown_cmark::Event::Text(t.into()));
    let events = vec![fence("diff"), text("+a"), end(), fence("rust"), text("+a"), end()];
    let rewritten = parse(&config(), events, "p/e").unwrap();
    assert_eq!(
        htmls(&rewritten.events),
        vec![
            "<pre><code><span style=\"background: green; color: white;\">+a</span>\n</code></pre>".to_string(),
            "<pre><code><span>+a</span>\n</code></pre>".to_string(),
        ]
    );
}

#[test]
fn parse_of_nothing_is_nothing() {
    let rewritten = parse(&config(), Vec::new(), "p/e").unwrap();
    assert_eq!(rewritten.front_matter, None);
    assert!(rewritten.events.is_empty());
}
