// Tests for the terminal interface's application state.

use micropub::operations::{media_item_of, post_item_of, MediaData, PostData};
use micropub::tui::{App, ConfirmationAction, DraftItem, MediaItem, PostItem, Tab};

fn draft(id: &str, title: &str) -> DraftItem {
    DraftItem {
        id: id.to_string(),
        title: title.to_string(),
        post_type: "note".to_string(),
        categories: vec!["a".to_string(), "b".to_string()],
    }
}

fn post(url: &str) -> PostItem {
    PostItem {
        url: url.to_string(),
        content: "hello world".to_string(),
        name: Some("A Post".to_string()),
        published: "2024-01-15".to_string(),
        categories: vec!["x".to_string()],
    }
}

fn media(url: &str) -> MediaItem {
    MediaItem {
        url: url.to_string(),
        name: None,
        uploaded: "2024-01-15".to_string(),
    }
}

fn sample_app() -> App {
    App::new(
        vec![draft("d1", "First"), draft("d2", "Second")],
        vec![post("https://example.com/1"), post("https://example.com/2")],
        vec![media("https://example.com/m1")],
    )
}

#[test]
fn test_new_app_previews_first_draft() {
    let app = sample_app();
    assert_eq!(app.current_tab, Tab::Drafts);
    let preview = app.preview_content.clone().unwrap();
    assert!(preview.contains("Title: First"));
    assert!(preview.contains("Type: note"));
    assert!(preview.contains("Categories: a, b"));
}

#[test]
fn test_tab_cycling() {
    let mut app = sample_app();
    app.next_tab();
    assert_eq!(app.current_tab, Tab::Posts);
    app.next_tab();
    assert_eq!(app.current_tab, Tab::Media);
    app.next_tab();
    assert_eq!(app.current_tab, Tab::Drafts);
    app.previous_tab();
    assert_eq!(app.current_tab, Tab::Media);
}

#[test]
fn test_post_preview_contents() {
    let mut app = sample_app();
    app.next_tab();
    let preview = app.preview_content.clone().unwrap();
    assert!(preview.contains("Title: A Post"));
    assert!(preview.contains("URL: https://example.com/1"));
    assert!(preview.contains("Published: 2024-01-15"));
    assert!(preview.contains("Categories: x"));
    assert!(preview.contains("\n---\n\nhello world"));
}

#[test]
fn test_item_navigation_wraps() {
    let mut app = sample_app();
    assert_eq!(app.selected_draft, 0);
    app.next_item();
    assert_eq!(app.selected_draft, 1);
    assert!(app.preview_content.clone().unwrap().contains("Title: Second"));
    app.next_item();
    assert_eq!(app.selected_draft, 0);
    app.previous_item();
    assert_eq!(app.selected_draft, 1);
}

#[test]
fn test_navigation_on_empty_list_does_nothing() {
    let mut app = App::new(Vec::new(), Vec::new(), Vec::new());
    app.next_item();
    app.previous_item();
    assert_eq!(app.selected_draft, 0);
    assert!(app.preview_content.is_none());
}

#[test]
fn test_edit_item_yields_selected_draft() {
    let mut app = sample_app();
    app.next_item();
    assert_eq!(app.edit_item(), Some("d2".to_string()));
    app.next_tab();
    assert_eq!(app.edit_item(), None);
    assert_eq!(
        app.error_message.as_deref(),
        Some("Edit not available for this view")
    );
}

#[test]
fn test_confirmation_round_trip() {
    let mut app = sample_app();
    assert!(!app.awaiting_confirmation());
    app.publish_draft();
    assert!(app.awaiting_confirmation());
    assert!(matches!(
        app.confirmation_action,
        ConfirmationAction::PublishDraft(ref id) if id == "d1"
    ));
    assert_eq!(app.status_message.as_deref(), Some("Publish draft? (y/n)"));
    app.cancel_action();
    assert!(!app.awaiting_confirmation());
    assert_eq!(app.status_message.as_deref(), Some("Action cancelled"));
}

#[test]
fn test_delete_and_backdate_prompts() {
    let mut app = sample_app();
    app.delete_item();
    assert!(matches!(
        app.confirmation_action,
        ConfirmationAction::DeleteDraft(ref id) if id == "d1"
    ));
    app.backdate_draft();
    assert!(app.awaiting_date_input());
    assert!(matches!(
        app.confirmation_action,
        ConfirmationAction::BackdateDraft(ref id) if id == "d1"
    ));
}

#[test]
fn test_date_input_editing() {
    let mut app = sample_app();
    app.backdate_draft();
    app.add_date_char('2');
    app.add_date_char('0');
    app.add_date_char('2');
    app.add_date_char('5');
    assert_eq!(app.date_input, "2025");
    app.delete_date_char();
    assert_eq!(app.date_input, "202");
    app.delete_date_char();
    app.delete_date_char();
    app.delete_date_char();
    app.delete_date_char();
    assert_eq!(app.date_input, "");
}

#[test]
fn test_confirm_quit_needs_two_presses() {
    let mut app = sample_app();
    assert!(!app.confirm_quit());
    assert_eq!(app.status_message.as_deref(), Some("Press 'q' again to quit"));
    assert!(app.confirm_quit());
    app.clear_error();
    assert!(!app.quit_requested);
    assert!(!app.confirm_quit());
}

#[test]
fn test_reload_and_select_draft_finds_new_draft() {
    let mut app = sample_app();
    let items = vec![draft("d1", "First"), draft("d3", "Third"), draft("d2", "Second")];
    app.reload_and_select_draft(items, "d3");
    assert_eq!(app.selected_draft, 1);
    assert_eq!(app.status_message.as_deref(), Some("Draft created: d3"));
    assert!(app.preview_content.clone().unwrap().contains("Title: Third"));
}

#[test]
fn test_reload_and_select_draft_missing_id() {
    let mut app = sample_app();
    let items = vec![draft("d1", "First")];
    app.reload_and_select_draft(items, "nope");
    assert_eq!(
        app.error_message.as_deref(),
        Some("Draft created but not found in list")
    );
}

#[test]
fn test_load_drafts_replaces_list() {
    let mut app = sample_app();
    app.load_drafts(vec![draft("x", "Only")]);
    assert_eq!(app.drafts.len(), 1);
    assert_eq!(app.drafts[0].id, "x");
}

#[test]
fn test_new_draft_hands_out_identifier() {
    let mut app = sample_app();
    let id = app.new_draft();
    assert_eq!(id.len(), 36);
}

#[test]
fn test_media_preview_without_name() {
    let mut app = sample_app();
    app.previous_tab();
    assert_eq!(app.current_tab, Tab::Media);
    let preview = app.preview_content.clone().unwrap();
    assert!(preview.contains("URL: https://example.com/m1"));
    assert!(preview.contains("Uploaded: 2024-01-15"));
    assert!(!preview.contains("Name/Alt Text"));
}

#[test]
fn test_fetched_items_convert_field_for_field() {
    let p = post_item_of(PostData {
        url: "https://example.com/1".to_string(),
        content: "body".to_string(),
        name: None,
        published: "2024".to_string(),
        categories: vec!["c".to_string()],
    });
    assert_eq!(p.url, "https://example.com/1");
    assert_eq!(p.categories, vec!["c".to_string()]);
    let m = media_item_of(MediaData {
        url: "https://example.com/m".to_string(),
        name: Some("alt".to_string()),
        uploaded: "2024".to_string(),
    });
    assert_eq!(m.name.as_deref(), Some("alt"));
}
