//! The argument shapes of the assistant-protocol tools and prompts, and their
//! paging defaults. The protocol server itself is plain I/O and lives in the
//! surrounding program; the value shapes and defaults it works with are here.

use vstd::prelude::*;

verus! {

/// Parameters for the publish-post tool.
#[derive(Debug, Clone, PartialEq, Eq)]
pub struct PublishPostArgs {
    /// The content of the post.
    pub content: String,
    /// Optional title for the post.
    pub title: Option<String>,
    /// Optional comma-separated categories.
    pub categories: Option<String>,
}

/// Parameters for the create-draft tool.
#[derive(Debug, Clone, PartialEq, Eq)]
pub struct CreateDraftArgs {
    /// The content of the draft.
    pub content: String,
    /// Optional title for the draft.
    pub title: Option<String>,
}

/// Parameters for the publish-backdate tool.
#[derive(Debug, Clone, PartialEq, Eq)]
pub struct PublishBackdateArgs {
    /// The draft to publish (alphanumeric, hyphens, underscores only).
    pub draft_id: String,
    /// An ISO 8601 date.
    pub date: String,
}

/// Parameters for the delete-post tool.
#[derive(Debug, Clone, PartialEq, Eq)]
pub struct DeletePostArgs {
    /// The URL of the post to delete.
    pub url: String,
}

/// Parameters for the list-posts tool.
#[derive(Debug, Clone, Copy, PartialEq, Eq, Structural)]
pub struct ListPostsArgs {
    /// Number of posts to retrieve.
    pub limit: usize,
    /// Offset for pagination.
    pub offset: usize,
}

/// Parameters for the view-draft tool.
#[derive(Debug, Clone, PartialEq, Eq)]
pub struct ViewDraftArgs {
    /// The draft to view.
    pub draft_id: String,
}

/// Parameters for the list-media tool.
#[derive(Debug, Clone, Copy, PartialEq, Eq, Structural)]
pub struct ListMediaArgs {
    /// Number of media items to retrieve.
    pub limit: usize,
    /// Offset for pagination.
    pub offset: usize,
}

/// The post count shown when a listing names none.
pub fn default_limit() -> (r: usize)
    ensures
        r == 10,
{
    10
}

/// The media count shown when a listing names none.
pub fn default_media_limit() -> (r: usize)
    ensures
        r == 20,
{
    20
}

/// Parameters for the quick-note prompt.
#[derive(Debug, Clone, PartialEq, Eq)]
pub struct QuickNotePromptArgs {
    /// The topic to write about.
    pub topic: String,
}

/// Parameters for the photo-post prompt.
#[derive(Debug, Clone, PartialEq, Eq)]
pub struct PhotoPostPromptArgs {
    /// What the photo depicts.
    pub subject: String,
}

/// Parameters for the article-draft prompt.
#[derive(Debug, Clone, PartialEq, Eq)]
pub struct ArticleDraftPromptArgs {
    /// The article topic or title.
    pub topic: String,
    /// Key points to cover.
    pub key_points: Option<String>,
}

/// Parameters for the backdate-memory prompt.
#[derive(Debug, Clone, PartialEq, Eq)]
pub struct BackdateMemoryPromptArgs {
    /// What event or memory to record.
    pub memory: String,
    /// When it happened.
    pub when: String,
}

/// Parameters for the categorized-post prompt.
#[derive(Debug, Clone, PartialEq, Eq)]
pub struct CategorizedPostPromptArgs {
    /// The post topic.
    pub topic: String,
    /// Comma-separated categories for the post.
    pub categories: String,
}

} // verus!
