// Tests for media reference detection and path replacement.

use micropub::media::{find_media_references, is_local_path, replace_paths};

#[test]
fn test_find_markdown_images() {
    let content = "Here's an image: ![alt](~/photo.jpg) and another ![](./pic.png)";
    let refs = find_media_references(content);

    assert_eq!(refs.len(), 2);
    assert!(refs.contains(&"~/photo.jpg".to_string()));
    assert!(refs.contains(&"./pic.png".to_string()));
}

#[test]
fn test_find_html_images() {
    let content = r#"<img src="~/image.png"> and <img src="/abs/path.jpg">"#;
    let refs = find_media_references(content);

    assert_eq!(refs.len(), 2);
}

#[test]
fn test_is_local_path() {
    assert!(is_local_path("~/photo.jpg"));
    assert!(is_local_path("/abs/path.jpg"));
    assert!(is_local_path("relative/path.jpg"));
    assert!(!is_local_path("https://example.com/image.jpg"));
}

#[test]
fn test_replace_paths() {
    let content = "Image: ![](~/photo.jpg) here";
    let replacements = vec![(
        "~/photo.jpg".to_string(),
        "https://cdn.com/abc.jpg".to_string(),
    )];

    let result = replace_paths(content, &replacements);
    assert!(result.contains("https://cdn.com/abc.jpg"));
    assert!(!result.contains("~/photo.jpg"));
}

#[test]
fn test_replace_paths_applies_pairs_in_order() {
    let content = "a b a";
    let replacements = vec![
        ("a".to_string(), "b".to_string()),
        ("b".to_string(), "c".to_string()),
    ];
    // The second pair sees the first pair's work.
    assert_eq!(replace_paths(content, &replacements), "c c c");
}
