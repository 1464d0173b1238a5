use puggle::builder::{Build, Reply, Request, Stage};
use puggle::error::{ExtractMetadataError, ParseFilesError};
use puggle::metadata::Metadata;
use puggle::paths::DirEntry;
use puggle::site::{Config, Entry, Page, PageWithEntries, StandalonePage};

fn blog(rss: bool, entries: Vec<Entry>) -> Page {
    Page::WithEntries(PageWithEntries {
        name: "blog".to_string(),
        description: Some("Things I wrote".to_string()),
        rss,
        rss_name: Some("My Feed".to_string()),
        template_path: "blog.html".to_string(),
        entries,
    })
}

fn about() -> Page {
    Page::Standalone(StandalonePage { name: "about".to_string(), template_path: "about.html".to_string() })
}

fn file(path: &str) -> Entry {
    Entry::File { markdown_path: path.to_string(), template_path: "post.html".to_string() }
}

fn dir(path: &str) -> Entry {
    Entry::Dir { source_dir: path.to_string(), template_path: "post.html".to_string() }
}

fn site(pages: Vec<Page>) -> Config {
    Config {
        pages,
        templates_dir: "templates".to_string(),
        dest_dir: "dist".to_string(),
        base_url: "https://example.com/".to_string(),
    }
}

fn read(title: &str, created_at: Option<&str>, aliases: Option<Vec<&str>>) -> Metadata {
    Metadata {
        title: title.to_string(),
        created_at: created_at.map(str::to_string),
        updated_at: None,
        unix_created_at: None,
        unix_updated_at: None,
        tags: Vec::new(),
        file_name: String::new(),
        cover: None,
        summary: None,
        aliases: aliases.map(|list| list.into_iter().map(str::to_string).collect()),
        author_email: None,
        custom: None,
    }
}

fn markdown(title: &str) -> String {
    format!("---\ntitle: \"{title}\"\ntags: []\n---\n# {title}")
}

fn expect_read(request: Request, path: &str) {
    match request {
        Request::ReadFile(asked) => assert_eq!(asked, path),
        other => panic!("expected to be asked for {path}, got {other:?}"),
    }
}

fn expect_decode(request: Request, front_matter: &str) {
    match request {
        Request::DecodeFrontMatter(text) => assert_eq!(text, front_matter),
        other => panic!("expected a front matter, got {other:?}"),
    }
}

fn expect_render(request: Request, page: &str, feed: Option<&str>) {
    match request {
        Request::Render { page: source, feed: body } => {
            assert_eq!(source, page);
            assert_eq!(body.as_deref(), feed);
        }
        other => panic!("expected templates to render, got {other:?}"),
    }
}

fn expect_write(request: Request, files: Vec<(&str, &str)>) {
    match request {
        Request::Write(written) => {
            let pairs: Vec<(&str, &str)> =
                written.iter().map(|f| (f.path.as_str(), f.content.as_str())).collect();
            assert_eq!(pairs, files);
        }
        other => panic!("expected files to write, got {other:?}"),
    }
}

fn expect_listing(request: Request, template: &str) {
    match request {
        Request::RenderListing(path) => assert_eq!(path, template),
        other => panic!("expected the index of a page, got {other:?}"),
    }
}

fn expect_failure(request: Request) -> ParseFilesError {
    match request {
        Request::Failed(error) => error,
        other => panic!("expected a failure, got {other:?}"),
    }
}

/// Takes one entry from its text to its written files.
fn entry(build: Build, title: &str, stem: &str, created_at: Option<&str>, feed: bool) -> (Build, Request) {
    let body = format!("<h1>{title}</h1>");
    let (build, request) = build.step(Reply::Text(markdown(title)));
    expect_decode(request, format!("title: \"{title}\"\ntags: []\n").as_str());
    let (build, request) = build.step(Reply::Metadata(read(title, created_at, None)));
    let source = format!("{{% extends \"post.html\" %}}\n{{% block content %}}\n{body}\n{{% endblock %}}");
    expect_render(request, source.as_str(), if feed { Some(body.as_str()) } else { None });
    assert_eq!(build.metadata().as_ref().unwrap().file_name, stem);
    let (build, request) = build.step(Reply::Rendered {
        page: format!("<html>{title}</html>"),
        feed: if feed { Some(format!("<p>{title}</p>")) } else { None },
    });
    let path = format!("blog/{stem}/index.html");
    let content = format!("<html>{title}</html>");
    expect_write(request, vec![(path.as_str(), content.as_str())]);
    assert_eq!(build.stage(), Stage::EntryWritten);
    build.step(Reply::Done)
}

#[test]
fn build_of_a_site_without_pages_is_finished_at_once() {
    let build = Build::new(site(Vec::new()));
    assert_eq!(build.stage(), Stage::Ready);
    let (build, request) = build.step(Reply::Start);
    assert!(matches!(request, Request::Finished));
    assert_eq!(build.stage(), Stage::Finished);
    let (build, request) = build.step(Reply::Done);
    assert!(matches!(expect_failure(request), ParseFilesError::OutOfTurn));
    assert_eq!(build.stage(), Stage::Finished);
}

#[test]
fn rss_feed() {
    let pages = vec![about(), blog(true, vec![file("posts/one.md"), file("posts/two.md")])];
    let build = Build::new(site(pages));
    let (build, request) = build.step(Reply::Start);
    expect_read(request, "posts/one.md");
    let (build, request) = entry(build, "One", "one", Some("2024-01-02T03:04:05Z"), true);
    expect_read(request, "posts/two.md");
    let (build, request) = entry(build, "Two", "two", Some("2024-02-03T04:05:06+01:00"), true);

    expect_listing(request, "about.html");
    let (build, request) = build.step(Reply::Text("<p>about</p>".to_string()));
    expect_write(request, vec![("about/index.html", "<p>about</p>")]);
    let (build, request) = build.step(Reply::Done);
    expect_listing(request, "blog.html");
    let (build, request) = build.step(Reply::Text("<ul/>".to_string()));
    expect_write(request, vec![("blog/index.html", "<ul/>")]);
    let (build, request) = build.step(Reply::Done);

    match request {
        Request::WriteFeed(path, xml) => {
            assert_eq!(path, "blog.rss");
            assert!(xml.contains("<title>My Feed</title>"), "{xml}");
            assert!(xml.contains("<language>en</language>"), "{xml}");
            assert!(xml.contains("<link>https://example.com/</link>"), "{xml}");
            assert!(xml.contains("<description>Things I wrote</description>"), "{xml}");
            assert!(xml.contains("<atom:link href=\"https://example.com/\" rel=\"self\"/>"), "{xml}");
            assert!(xml.contains("<guid isPermaLink=\"false\">https://example.com/one</guid>"), "{xml}");
            assert!(xml.contains("<guid isPermaLink=\"false\">https://example.com/two</guid>"), "{xml}");
            assert!(xml.contains("<pubDate>Tue, 02 Jan 2024 03:04:05 +0000</pubDate>"), "{xml}");
            assert!(xml.contains("<pubDate>Sat, 03 Feb 2024 04:05:06 +0100</pubDate>"), "{xml}");
            assert_eq!(xml.matches("<item>").count(), 2);
            let one = xml.find("<title>One</title>").unwrap();
            let two = xml.find("<title>Two</title>").unwrap();
            assert!(one < two);
        }
        other => panic!("expected a feed, got {other:?}"),
    }
    assert_eq!(build.stage(), Stage::FeedWritten);
    let (build, request) = build.step(Reply::Done);
    assert!(matches!(request, Request::Finished));
    assert_eq!(build.stage(), Stage::Finished);
}

#[test]
fn page_without_rss_has_no_feed() {
    let build = Build::new(site(vec![blog(false, vec![file("posts/one.md")])]));
    let (build, request) = build.step(Reply::Start);
    expect_read(request, "posts/one.md");
    let (build, request) = entry(build, "One", "one", None, false);
    expect_listing(request, "blog.html");
    let (build, _) = build.step(Reply::Text(String::new()));
    let (_, request) = build.step(Reply::Done);
    assert!(matches!(request, Request::Finished));
}

#[test]
fn listing_template() {
    let pages = vec![blog(false, vec![dir("posts"), file("extra/last.md")]), about()];
    let build = Build::new(site(pages));
    let (build, request) = build.step(Reply::Start);
    match request {
        Request::ListDir(path) => assert_eq!(path, "posts"),
        other => panic!("expected a directory, got {other:?}"),
    }
    assert_eq!(build.stage(), Stage::Listing);
    let listing = vec![
        DirEntry { path: "posts/zebra.md".to_string(), is_file: true },
        DirEntry { path: "posts/image.png".to_string(), is_file: true },
        DirEntry { path: "posts/drafts.md".to_string(), is_file: false },
        DirEntry { path: "posts/apple.md".to_string(), is_file: true },
    ];
    let (build, request) = build.step(Reply::Listing(listing));
    expect_read(request, "posts/zebra.md");
    let (build, request) = entry(build, "Zebra", "zebra", None, false);
    expect_read(request, "posts/apple.md");
    let (build, request) = entry(build, "Apple", "apple", None, false);
    expect_read(request, "extra/last.md");
    assert_eq!(build.index().pages.len(), 1);
    assert_eq!(build.index().pages[0].entries.len(), 2);
    let (build, request) = entry(build, "Last", "last", None, false);

    expect_listing(request, "blog.html");
    let index = build.index();
    assert_eq!(index.pages.len(), 1);
    assert_eq!(index.pages[0].name, "blog");
    let stems: Vec<&str> = index.pages[0].entries.iter().map(|m| m.file_name.as_str()).collect();
    assert_eq!(stems, vec!["zebra", "apple", "last"]);
    let titles: Vec<&str> = index.pages[0].entries.iter().map(|m| m.title.as_str()).collect();
    assert_eq!(titles, vec!["Zebra", "Apple", "Last"]);

    let (build, request) = build.step(Reply::Text("<ul>3</ul>".to_string()));
    expect_write(request, vec![("blog/index.html", "<ul>3</ul>")]);
    let (build, request) = build.step(Reply::Done);
    expect_listing(request, "about.html");
    assert_eq!(build.index().pages[0].entries.len(), 3);
    let (build, _) = build.step(Reply::Text(String::new()));
    let (_, request) = build.step(Reply::Done);
    assert!(matches!(request, Request::Finished));
}

#[test]
fn empty_directory_still_lists_the_page() {
    let build = Build::new(site(vec![blog(true, vec![dir("posts")])]));
    let (build, _) = build.step(Reply::Start);
    let (build, request) = build.step(Reply::Listing(Vec::new()));
    expect_listing(request, "blog.html");
    assert_eq!(build.index().pages.len(), 1);
    assert!(build.index().pages[0].entries.is_empty());
}

#[test]
fn aliases_are_written_with_the_entry() {
    let build = Build::new(site(vec![blog(false, vec![file("posts/new-name.md")])]));
    let (build, _) = build.step(Reply::Start);
    let (build, _) = build.step(Reply::Text(markdown("T")));
    let (build, _) = build.step(Reply::Metadata(read("T", None, Some(vec!["old-name", "very/old/name"]))));
    let (_, request) = build.step(Reply::Rendered { page: "<html/>".to_string(), feed: None });
    match request {
        Request::Write(files) => {
            let paths: Vec<&str> = files.iter().map(|f| f.path.as_str()).collect();
            assert_eq!(
                paths,
                vec![
                    "blog/new-name/index.html",
                    "blog/old-name/index.html",
                    "blog/very/old/name/index.html"
                ]
            );
            assert_eq!(files[0].content, "<html/>");
            for stub in &files[1..] {
                assert!(stub.content.contains("<title>T</title>"));
                assert!(stub.content.contains("<link rel=\"canonical\" href=\"/blog/new-name\"/>"));
                assert!(stub.content.contains("content=\"0; url=/blog/new-name\""));
            }
        }
        other => panic!("expected files to write, got {other:?}"),
    }
}

#[test]
fn front_matter_absent_is_metadata_missing() {
    let build = Build::new(site(vec![blog(false, vec![file("posts/bare.md")])]));
    let (build, _) = build.step(Reply::Start);
    let (build, request) = build.step(Reply::Text("# No front matter".to_string()));
    match expect_failure(request) {
        ParseFilesError::MetadataMissing(path) => assert_eq!(path, "posts/bare.md"),
        other => panic!("unexpected: {other:?}"),
    }
    assert_eq!(build.stage(), Stage::Failed);
    let (_, request) = build.step(Reply::Start);
    assert!(matches!(expect_failure(request), ParseFilesError::OutOfTurn));
}

#[test]
fn path_without_a_stem_is_a_file_name_error() {
    let build = Build::new(site(vec![blog(false, vec![file("..")])]));
    let (build, request) = build.step(Reply::Start);
    assert!(matches!(expect_failure(request), ParseFilesError::FileName));
    assert_eq!(build.stage(), Stage::Failed);
}

#[test]
fn failures_of_the_outside_end_the_build() {
    let build = Build::new(site(vec![blog(false, vec![file("posts/one.md")])]));
    let (build, _) = build.step(Reply::Start);
    let (build, request) = build.step(Reply::Failed(ParseFilesError::Io("no such file".to_string())));
    match expect_failure(request) {
        ParseFilesError::Io(why) => assert_eq!(why, "no such file"),
        other => panic!("unexpected: {other:?}"),
    }
    assert_eq!(build.stage(), Stage::Failed);
}

#[test]
fn render_failures_are_passed_on() {
    let build = Build::new(site(vec![about()]));
    let (build, request) = build.step(Reply::Start);
    expect_listing(request, "about.html");
    let reply = Reply::Failed(ParseFilesError::TemplateEnvironment("template not found".to_string()));
    match expect_failure(build.step(reply).1) {
        ParseFilesError::TemplateEnvironment(why) => assert_eq!(why, "template not found"),
        other => panic!("unexpected: {other:?}"),
    }
    let build = Build::new(site(vec![about()]));
    let (build, _) = build.step(Reply::Start);
    let reply = Reply::Failed(ParseFilesError::TemplateRender("undefined value".to_string()));
    match expect_failure(build.step(reply).1) {
        ParseFilesError::TemplateRender(why) => assert_eq!(why, "undefined value"),
        other => panic!("unexpected: {other:?}"),
    }
}

#[test]
fn answers_out_of_turn_end_the_build() {
    let build = Build::new(site(vec![blog(false, vec![file("posts/one.md")])]));
    let (build, request) = build.step(Reply::Done);
    assert!(matches!(expect_failure(request), ParseFilesError::OutOfTurn));
    assert_eq!(build.stage(), Stage::Failed);

    let build = Build::new(site(vec![blog(false, vec![file("posts/one.md")])]));
    let (build, _) = build.step(Reply::Start);
    let (_, request) = build.step(Reply::Listing(Vec::new()));
    assert!(matches!(expect_failure(request), ParseFilesError::OutOfTurn));
}

#[test]
fn feed_body_must_come_when_it_was_asked_for() {
    let build = Build::new(site(vec![blog(true, vec![file("posts/one.md")])]));
    let (build, _) = build.step(Reply::Start);
    let (build, _) = build.step(Reply::Text(markdown("One")));
    let (build, _) = build.step(Reply::Metadata(read("One", None, None)));
    let (_, request) = build.step(Reply::Rendered { page: "<html/>".to_string(), feed: None });
    assert!(matches!(expect_failure(request), ParseFilesError::OutOfTurn));
}

#[test]
fn bad_timestamp_is_a_metadata_error() {
    let build = Build::new(site(vec![blog(false, vec![file("posts/one.md")])]));
    let (build, _) = build.step(Reply::Start);
    let (build, _) = build.step(Reply::Text(markdown("One")));
    let (_, request) = build.step(Reply::Metadata(read("One", Some("tomorrow"), None)));
    match expect_failure(request) {
        ParseFilesError::Metadata(ExtractMetadataError::Deserialize(path, why)) => {
            assert_eq!(path, "posts/one.md");
            assert_eq!(why, "created_at is not an RFC 3339 timestamp");
        }
        other => panic!("unexpected: {other:?}"),
    }
}

#[test]
fn decode_failures_are_passed_on() {
    let build = Build::new(site(vec![blog(false, vec![file("posts/one.md")])]));
    let (build, _) = build.step(Reply::Start);
    let (build, _) = build.step(Reply::Text(markdown("One")));
    let error = ParseFilesError::Metadata(ExtractMetadataError::Deserialize(
        "posts/one.md".to_string(),
        "missing field `tags`".to_string(),
    ));
    let (_, request) = build.step(Reply::Failed(error));
    match expect_failure(request) {
        ParseFilesError::Metadata(ExtractMetadataError::Deserialize(path, why)) => {
            assert_eq!(path, "posts/one.md");
            assert_eq!(why, "missing field `tags`");
        }
        other => panic!("unexpected: {other:?}"),
    }
}

#[test]
fn heading_links_use_the_page_path_of_the_entry() {
    let build = Build::new(site(vec![blog(false, vec![file("posts/deep.md")])]));
    let (build, _) = build.step(Reply::Start);
    let text = "---\ntitle: x\ntags: []\n---\n## Part One".to_string();
    let (build, _) = build.step(Reply::Text(text));
    let (_, request) = build.step(Reply::Metadata(read("x", None, None)));
    match request {
        Request::Render { page, .. } => assert!(page.contains(
            "<h2 id=\"part-one\"><a href=\"https://example.com/blog/deep#part-one\">Part One</a></h2>"
        )),
        other => panic!("unexpected: {other:?}"),
    }
}

#[test]
fn new_build_holds_nothing() {
    let build = Build::new(site(vec![about()]));
    assert!(build.metadata().is_none());
    assert!(build.index().pages.is_empty());
}

#[test]
fn failed_write_ends_the_build() {
    let build = Build::new(site(vec![about()]));
    let (build, _) = build.step(Reply::Start);
    let (build, request) = build.step(Reply::Text("<p/>".to_string()));
    expect_write(request, vec![("about/index.html", "<p/>")]);
    assert_eq!(build.stage(), Stage::ListingWritten);
    let (build, request) = build.step(Reply::Failed(ParseFilesError::Parent));
    assert!(matches!(expect_failure(request), ParseFilesError::Parent));
    assert_eq!(build.stage(), Stage::Failed);
}

#[test]
fn heading_without_an_address_ends_the_build() {
    let mut config = site(vec![blog(false, vec![file("posts/one.md")])]);
    config.base_url = "nowhere".to_string();
    let build = Build::new(config);
    let (build, _) = build.step(Reply::Start);
    let (_, request) = build.step(Reply::Text("---\ntitle: x\ntags: []\n---\n## Part".to_string()));
    match expect_failure(request) {
        ParseFilesError::Address(path) => assert_eq!(path, "blog/one"),
        other => panic!("unexpected: {other:?}"),
    }
}

#[test]
fn feed_item_without_an_address_ends_the_build() {
    let mut config = site(vec![blog(true, vec![file("posts/one.md")])]);
    config.base_url = "nowhere".to_string();
    let build = Build::new(config);
    let (build, _) = build.step(Reply::Start);
    let (build, _) = build.step(Reply::Text(markdown("One")));
    let (build, _) = build.step(Reply::Metadata(read("One", None, None)));
    let reply = Reply::Rendered { page: "<html/>".to_string(), feed: Some("<p/>".to_string()) };
    match expect_failure(build.step(reply).1) {
        ParseFilesError::Address(name) => assert_eq!(name, "one"),
        other => panic!("unexpected: {other:?}"),
    }
}

#[test]
fn pages_of_the_same_name_share_a_feed() {
    let pages = vec![
        blog(true, vec![file("a/one.md")]),
        blog(true, vec![file("b/two.md")]),
    ];
    let build = Build::new(site(pages));
    let (build, _) = build.step(Reply::Start);
    let (build, request) = entry(build, "One", "one", None, true);
    expect_read(request, "b/two.md");
    let (build, request) = entry(build, "Two", "two", None, true);
    expect_listing(request, "blog.html");
    let stems: Vec<&str> =
        build.index().pages[0].entries.iter().map(|m| m.file_name.as_str()).collect();
    assert_eq!(stems, vec!["two"]);
    let (build, _) = build.step(Reply::Text(String::new()));
    let (build, _) = build.step(Reply::Done);
    let (build, _) = build.step(Reply::Text(String::new()));
    let (build, request) = build.step(Reply::Done);
    match request {
        Request::WriteFeed(path, xml) => {
            assert_eq!(path, "blog.rss");
            assert_eq!(xml.matches("<item>").count(), 2);
        }
        other => panic!("expected a feed, got {other:?}"),
    }
    let (_, request) = build.step(Reply::Done);
    assert!(matches!(request, Request::Finished));
}
