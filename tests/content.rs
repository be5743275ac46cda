use chrono::Local;
use content_gen::timestamp::{MAX_SECS, MIN_SECS};
use content_gen::{path_for, render, Content, ContentType, Timestamp};

fn epoch() -> Timestamp {
    Timestamp::new(0, 0, 0).unwrap()
}

fn record(content_type: ContentType, title: &str) -> Content {
    Content {
        content_type,
        title: String::from(title),
        created_at: epoch(),
    }
}

#[test]
fn content_filename_returns_expected_value() {
    let content = Content::new(ContentType::Note, String::from("Test Title"));

    assert_eq!(content.filename(), "content/notes/test-title.md");
}

#[test]
fn content_slugify_returns_expected_value() {
    let content = Content::new(ContentType::Note, String::from("Test Title"));

    assert_eq!(content.slugify(), "test-title");
}

#[test]
fn content_contents_returns_expected_value() {
    let now = Local::now();
    let created_at = Timestamp::new(
        now.timestamp(),
        now.timestamp_subsec_nanos(),
        now.offset().local_minus_utc(),
    )
    .unwrap();
    let content = Content {
        content_type: ContentType::Note,
        title: String::from("Test Title"),
        created_at,
    };
    let current_date = now.to_rfc3339();

    let contents = content.contents();
    assert!(contents.contains(&format!("date: {}", current_date)));
    assert!(contents.contains("title:  \"Test Title\""));
    assert!(contents.contains("template: \"note.html\""));
    assert!(contents.contains("tags: []"));
}

#[test]
fn note_scenario_path_slug_and_fields() {
    let content = record(ContentType::Note, "Test Title");
    assert_eq!(content.filename(), "content/notes/test-title.md");
    assert_eq!(content.slugify(), "test-title");
    let contents = content.contents();
    assert!(contents.contains("template: \"note.html\""));
    assert!(contents.contains("tags: []"));
    assert!(!contents.contains("categories: []"));
}

#[test]
fn post_scenario_path_slug_and_fields() {
    let content = record(ContentType::Post, "Hello, World! 2024");
    assert_eq!(content.slugify(), "hello-world-2024");
    assert_eq!(content.filename(), "content/posts/hello-world-2024.md");
    let contents = content.contents();
    assert!(contents.contains("categories: []"));
    assert!(contents.contains("template: \"post.html\""));
    assert!(!contents.contains("tags: []"));
}

#[test]
fn empty_title_gives_empty_slug() {
    let content = record(ContentType::Note, "");
    assert_eq!(content.slugify(), "");
    assert_eq!(content.filename(), "content/notes/.md");
}

#[test]
fn slug_is_deterministic() {
    let content = record(ContentType::Note, "Ünïcode Tïtle -- again");
    assert_eq!(content.slugify(), content.slugify());
}

#[test]
fn slug_uses_only_slug_characters() {
    for title in ["  --test_-_cool", "Æúű--cool?", "You & Me", "user@example.com", "!!!", "a--b"] {
        let slug = record(ContentType::Post, title).slugify();
        assert!(slug.chars().all(|c| c.is_ascii_lowercase() || c.is_ascii_digit() || c == '-'));
        assert!(!slug.starts_with('-'));
        assert!(!slug.ends_with('-'));
        assert!(!slug.contains("--"));
    }
    assert_eq!(record(ContentType::Post, "Æúű--cool?").slugify(), "aeuu-cool");
    assert_eq!(record(ContentType::Post, "!!!").slugify(), "");
}

#[test]
fn path_lies_in_kind_directory() {
    assert!(record(ContentType::Note, "A Post?").filename().starts_with("content/notes/"));
    assert!(record(ContentType::Post, "A Note?").filename().starts_with("content/posts/"));
}

#[test]
fn path_for_joins_its_parts() {
    assert_eq!(path_for(ContentType::Post, "abc"), "content/posts/abc.md");
    assert_eq!(path_for(ContentType::Note, ""), "content/notes/.md");
}

#[test]
fn render_writes_whole_front_matter() {
    let expected = "---\ntitle:  \"Say \"hi\"\"\ndescription: \"\"\ndate: D\ntemplate: \"note.html\"\ndraft: true\ntaxonomies:\n  tags: []\n---\n";
    assert_eq!(render(ContentType::Note, "Say \"hi\"", "D"), expected);
    let expected = "---\ntitle:  \"T\"\ndescription: \"\"\ndate: 2\ntemplate: \"post.html\"\ndraft: true\ntaxonomies:\n  categories: []\n---\n";
    assert_eq!(render(ContentType::Post, "T", "2"), expected);
}

#[test]
fn contents_of_record_are_exact() {
    let content = record(ContentType::Post, "Hello, World! 2024");
    let expected = "---\ntitle:  \"Hello, World! 2024\"\ndescription: \"\"\ndate: 1970-01-01T00:00:00+00:00\ntemplate: \"post.html\"\ndraft: true\ntaxonomies:\n  categories: []\n---\n";
    assert_eq!(content.contents(), expected);
}

#[test]
fn contents_are_idempotent() {
    let content = Content::new(ContentType::Note, String::from("Same"));
    assert_eq!(content.contents(), content.contents());
}

#[test]
fn rfc3339_of_known_instants() {
    assert_eq!(epoch().to_rfc3339(), "1970-01-01T00:00:00+00:00");
    let t = Timestamp::new(1478545200, 0, 5 * 3600).unwrap();
    assert_eq!(t.to_rfc3339(), "2016-11-08T00:00:00+05:00");
    let t = Timestamp::new(1478545200, 500_000_000, -3600).unwrap();
    assert_eq!(t.to_rfc3339(), "2016-11-07T18:00:00.500-01:00");
}

#[test]
fn timestamp_bounds_are_chrono_bounds() {
    assert!(Timestamp::new(MIN_SECS, 0, 0).is_some());
    assert!(Timestamp::new(MAX_SECS, 0, 0).is_some());
    assert!(Timestamp::new(MIN_SECS - 1, 0, 0).is_none());
    assert!(Timestamp::new(MAX_SECS + 1, 0, 0).is_none());
    assert!(Timestamp::new(0, 0, 86400).is_none());
    assert!(Timestamp::new(0, 0, -86400).is_none());
    assert!(Timestamp::new(0, 1_000_000_000, 0).is_none());
    assert!(Timestamp::new(59, 1_999_999_999, 0).is_some());
    assert!(Timestamp::new(-1, 1_500_000_000, 0).is_some());
    assert!(Timestamp::new(59, 2_000_000_000, 0).is_none());
    let low = Timestamp::new(MIN_SECS, 0, -86399).unwrap();
    assert!(!low.to_rfc3339().is_empty());
    let high = Timestamp::new(MAX_SECS, 1_999_999_999, 86399).unwrap();
    assert!(!high.to_rfc3339().is_empty());
}

#[test]
fn timestamp_keeps_its_parts() {
    let t = Timestamp::new(1478545200, 7, -3600).unwrap();
    assert_eq!((t.secs(), t.nanos(), t.offset()), (1478545200, 7, -3600));
}

#[test]
fn from_index_maps_selection() {
    assert_eq!(ContentType::from_index(0), Some(ContentType::Note));
    assert_eq!(ContentType::from_index(1), Some(ContentType::Post));
    assert_eq!(ContentType::from_index(2), None);
}

#[test]
fn kind_tables_agree() {
    assert_eq!(
        (ContentType::Note.subdir(), ContentType::Note.template(), ContentType::Note.taxonomy()),
        ("notes", "note", "tags: []")
    );
    assert_eq!(
        (ContentType::Post.subdir(), ContentType::Post.template(), ContentType::Post.taxonomy()),
        ("posts", "post", "categories: []")
    );
}
