// Tests for draft push helpers: the result shape, media handling around a
// push, and the status guard.

use micropub::media::{find_media_references, replace_paths};
use micropub::push::{can_push_status, generate_draft_id, PushResult};

#[test]
fn test_push_result_structure() {
    let result = PushResult {
        url: "https://example.com/posts/draft-123".to_string(),
        is_update: false,
        uploads: vec![(
            "photo.jpg".to_string(),
            "https://example.com/media/abc.jpg".to_string(),
        )],
    };

    assert_eq!(result.url, "https://example.com/posts/draft-123");
    assert!(!result.is_update);
    assert_eq!(result.uploads.len(), 1);
}

#[test]
fn test_find_media_references_in_draft_content() {
    let content = r#"
# My Post

Here is an image: ![alt text](~/photo.jpg)

And another: ![](./images/test.png)

But not this URL: ![](https://example.com/remote.jpg)
"#;

    let refs = find_media_references(content);

    // Should find local paths but not URLs
    assert_eq!(refs.len(), 2);
    assert!(refs.contains(&"~/photo.jpg".to_string()));
    assert!(refs.contains(&"./images/test.png".to_string()));
    assert!(!refs.contains(&"https://example.com/remote.jpg".to_string()));
}

#[test]
fn test_replace_paths_in_content() {
    let content = "Image: ![alt](~/photo.jpg) here";
    let replacements = vec![(
        "~/photo.jpg".to_string(),
        "https://cdn.example.com/uploaded.jpg".to_string(),
    )];

    let result = replace_paths(content, &replacements);

    assert!(result.contains("https://cdn.example.com/uploaded.jpg"));
    assert!(!result.contains("~/photo.jpg"));
}

#[test]
fn test_can_push_status_guards_published_posts() {
    assert!(can_push_status(&None));
    assert!(can_push_status(&Some("draft".to_string())));
    assert!(can_push_status(&Some("server-draft".to_string())));
    assert!(!can_push_status(&Some("published".to_string())));
}

#[test]
fn test_generate_draft_id_shape() {
    let id = generate_draft_id();
    assert_eq!(id.len(), 36);
    let other = generate_draft_id();
    assert_ne!(id, other);
}
