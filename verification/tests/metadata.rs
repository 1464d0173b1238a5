use puggle::error::ExtractMetadataError;
use puggle::metadata::Metadata;
use puggle::template::{published_on, wrap_in_template};

fn metadata(created_at: Option<&str>, updated_at: Option<&str>) -> Metadata {
    Metadata {
        title: "Hi".to_string(),
        created_at: created_at.map(str::to_string),
        updated_at: updated_at.map(str::to_string),
        unix_created_at: Some(7),
        unix_updated_at: Some(8),
        tags: vec!["a".to_string(), "b".to_string()],
        file_name: "from input".to_string(),
        cover: Some("cover.png".to_string()),
        summary: None,
        aliases: Some(vec!["old".to_string()]),
        author_email: Some("me@example.com".to_string()),
        custom: Some(vec![("k".to_string(), "v".to_string())]),
    }
}

#[test]
fn unix_times_are_the_seconds_of_the_timestamps() {
    let done = metadata(Some("2024-01-02T03:04:05Z"), Some("1970-01-01T00:00:10+00:00"))
        .complete("post", "posts/post.md")
        .unwrap();
    assert_eq!(done.unix_created_at, Some(1_704_164_645));
    assert_eq!(done.unix_updated_at, Some(10));
}

#[test]
fn unix_time_respects_the_offset() {
    let done = metadata(Some("1970-01-01T00:00:00-01:00"), None).complete("post", "p.md").unwrap();
    assert_eq!(done.unix_created_at, Some(3_600));
}

#[test]
fn absent_timestamps_leave_no_unix_times() {
    let done = metadata(None, None).complete("post", "posts/post.md").unwrap();
    assert_eq!(done.created_at, None);
    assert_eq!(done.unix_created_at, None);
    assert_eq!(done.updated_at, None);
    assert_eq!(done.unix_updated_at, None);
}

#[test]
fn file_name_is_the_stem_whatever_the_input_said() {
    let done = metadata(None, None).complete("my-post", "posts/my-post.md").unwrap();
    assert_eq!(done.file_name, "my-post");
    assert_eq!(done.title, "Hi");
}

#[test]
fn completing_keeps_what_was_read() {
    let done = metadata(Some("2024-01-02T03:04:05Z"), None).complete("post", "p.md").unwrap();
    assert_eq!(done.created_at.as_deref(), Some("2024-01-02T03:04:05Z"));
    assert_eq!(done.tags, vec!["a", "b"]);
    assert_eq!(done.cover.as_deref(), Some("cover.png"));
    assert_eq!(done.summary, None);
    assert_eq!(done.aliases, Some(vec!["old".to_string()]));
    assert_eq!(done.author_email.as_deref(), Some("me@example.com"));
    assert_eq!(done.custom, Some(vec![("k".to_string(), "v".to_string())]));
}

#[test]
fn bad_created_at_is_a_deserialize_error() {
    match metadata(Some("yesterday"), Some("also bad")).complete("post", "posts/post.md") {
        Err(ExtractMetadataError::Deserialize(path, why)) => {
            assert_eq!(path, "posts/post.md");
            assert_eq!(why, "created_at is not an RFC 3339 timestamp");
        }
        Ok(_) => panic!("accepted a bad timestamp"),
    }
}

#[test]
fn bad_updated_at_is_a_deserialize_error() {
    match metadata(Some("2024-01-02T03:04:05Z"), Some("2024-13-01T00:00:00Z")).complete("post", "p.md") {
        Err(ExtractMetadataError::Deserialize(path, why)) => {
            assert_eq!(path, "p.md");
            assert_eq!(why, "updated_at is not an RFC 3339 timestamp");
        }
        Ok(_) => panic!("accepted a bad timestamp"),
    }
}

#[test]
fn duplicate_is_equal_field_by_field() {
    let first = metadata(Some("2024-01-02T03:04:05Z"), None);
    let copy = first.duplicate();
    assert_eq!(format!("{:?}", copy), format!("{:?}", first));
}

#[test]
fn wrapped_template_extends_the_layout() {
    assert_eq!(
        wrap_in_template("<p>body</p>", "layouts/post.html"),
        "{% extends \"layouts/post.html\" %}\n{% block content %}\n<p>body</p>\n{% endblock %}"
    );
}

#[test]
fn published_on_shows_both_forms_of_the_date() {
    assert_eq!(
        published_on("2024-01-02T03:04:05Z", "Jan 2 2024"),
        "Published on <time datetime=\"2024-01-02T03:04:05Z\">Jan 2 2024 UTC</time>"
    );
}
