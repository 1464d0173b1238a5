use puggle::heading::{href, render_heading, slug, HeadingLevel};

const BASE: &str = "https://example.com/";

#[test]
fn slug_is_lowercase_with_hyphens() {
    assert_eq!(slug("My First Post"), "my-first-post");
}

#[test]
fn slug_loses_whitespace_at_the_ends() {
    assert_eq!(slug("\tTabbed Title\n"), "tabbed-title");
}

#[test]
fn slug_of_a_slug_is_the_slug() {
    let once = slug("Round Trip Of A Heading");
    assert_eq!(slug(once.as_str()), once);
}

#[test]
fn slug_lowercases_beyond_ascii() {
    assert_eq!(slug("ÄRGER Über"), "ärger-über");
}

#[test]
fn first_level_heading_has_no_anchor() {
    assert_eq!(
        render_heading(HeadingLevel::H1, "Hello", BASE, "blog/post"),
        Some("<h1>Hello</h1>".to_string())
    );
}

#[test]
fn first_level_heading_needs_no_base() {
    assert_eq!(
        render_heading(HeadingLevel::H1, "Hello", "not a url", "blog/post"),
        Some("<h1>Hello</h1>".to_string())
    );
}

#[test]
fn second_level_heading_links_to_itself() {
    assert_eq!(
        render_heading(HeadingLevel::H2, "My Title", BASE, "blog/post"),
        Some(
            "<h2 id=\"my-title\"><a href=\"https://example.com/blog/post#my-title\">My Title</a></h2>"
                .to_string()
        )
    );
}

#[test]
fn every_lower_level_has_its_tag() {
    let levels = [
        (HeadingLevel::H3, "h3"),
        (HeadingLevel::H4, "h4"),
        (HeadingLevel::H5, "h5"),
        (HeadingLevel::H6, "h6"),
    ];
    for (level, tag) in levels {
        assert_eq!(level.tag_name(), tag);
        assert_eq!(
            render_heading(level, "T", BASE, "p/e"),
            Some(format!("<{tag} id=\"t\"><a href=\"https://example.com/p/e#t\">T</a></{tag}>"))
        );
    }
    assert_eq!(HeadingLevel::H1.tag_name(), "h1");
    assert_eq!(HeadingLevel::H2.tag_name(), "h2");
}

#[test]
fn heading_without_a_base_address_fails() {
    assert_eq!(render_heading(HeadingLevel::H2, "T", "not a url", "blog/post"), None);
}

#[test]
fn href_ends_with_the_slug() {
    let address = href(BASE, "blog/post", "my-title").unwrap();
    assert_eq!(address, "https://example.com/blog/post#my-title");
    assert!(address.ends_with("#my-title"));
}

#[test]
fn href_encodes_what_a_fragment_cannot_hold() {
    assert_eq!(
        href(BASE, "blog/post", "it’s").unwrap(),
        "https://example.com/blog/post#it%E2%80%99s"
    );
}

#[test]
fn href_replaces_the_last_segment_of_the_base() {
    assert_eq!(
        href("https://example.com/site/index", "blog/post", "x").unwrap(),
        "https://example.com/site/blog/post#x"
    );
}

#[test]
fn href_fails_on_a_base_that_cannot_be_a_base() {
    assert_eq!(href("mailto:someone@example.com", "blog/post", "x"), None);
}
