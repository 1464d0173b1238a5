use puggle::output::{entry_outputs, feed_path, index_path, page_path, redirect_html, OutputFile};

const STUB: &str = "<!DOCTYPE html>
<html>
  <head>
    <title>My Post</title>
    <link rel=\"canonical\" href=\"/blog/post\"/>
    <meta http-equiv=\"content-type\" content=\"text/html; charset=utf-8\"/>
    <meta http-equiv=\"refresh\" content=\"0; url=/blog/post\"/>
  </head>
  <body>
    If you aren't redirected, you can manually click this link:
    <a href=\"/blog/post\">/blog/post</a>.
  </body>
</html>";

fn pairs(files: &[OutputFile]) -> Vec<(&str, &str)> {
    files.iter().map(|f| (f.path.as_str(), f.content.as_str())).collect()
}

#[test]
fn redirect_stub_is_the_template_filled_in() {
    assert_eq!(redirect_html("My Post", "blog/post"), STUB);
}

#[test]
fn paths_are_put_together_with_slashes() {
    assert_eq!(page_path("blog", "post"), "blog/post");
    assert_eq!(index_path("blog/post"), "blog/post/index.html");
    assert_eq!(index_path("about"), "about/index.html");
    assert_eq!(feed_path("blog"), "blog.rss");
}

#[test]
fn entry_without_aliases_has_one_file() {
    let files = entry_outputs("blog", "post", "My Post", &Vec::new(), "<html/>".to_string());
    assert_eq!(pairs(&files), vec![("blog/post/index.html", "<html/>")]);
}

#[test]
fn aliased_entry() {
    let aliases = vec!["old-name".to_string(), "very/old/name".to_string()];
    let files = entry_outputs("blog", "post", "My Post", &aliases, "<html/>".to_string());
    assert_eq!(
        pairs(&files),
        vec![
            ("blog/post/index.html", "<html/>"),
            ("blog/old-name/index.html", STUB),
            ("blog/very/old/name/index.html", STUB),
        ]
    );
    assert!(files[1].content.contains("<link rel=\"canonical\" href=\"/blog/post\"/>"));
}

#[test]
fn entry_page_path_occurs_once() {
    let aliases = vec!["a".to_string(), "b".to_string(), "post2".to_string()];
    let files = entry_outputs("blog", "post", "T", &aliases, "x".to_string());
    let same = files.iter().filter(|f| f.path == "blog/post/index.html").count();
    assert_eq!(same, 1);
}
