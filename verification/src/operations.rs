//! The value shapes of the post and media listings. Fetching them is network
//! I/O and lives in the surrounding program; the shapes it hands back, and
//! their conversion into the interface's list items, are here.

use vstd::prelude::*;
use crate::tui::{MediaItem, PostItem};

verus! {

/// One published post, as the listing query reports it.
#[derive(Debug, Clone, PartialEq, Eq)]
pub struct PostData {
    pub url: String,
    pub content: String,
    pub name: Option<String>,
    pub published: String,
    pub categories: Vec<String>,
}

/// One uploaded media file, as the listing query reports it.
#[derive(Debug, Clone, PartialEq, Eq)]
pub struct MediaData {
    pub url: String,
    pub name: Option<String>,
    pub uploaded: String,
}

/// Turn a fetched post into the interface's list item, field for field.
pub fn post_item_of(p: PostData) -> (r: PostItem)
    ensures
        r.url == p.url,
        r.content == p.content,
        r.name == p.name,
        r.published == p.published,
        r.categories == p.categories,
{
    PostItem {
        url: p.url,
        content: p.content,
        name: p.name,
        published: p.published,
        categories: p.categories,
    }
}

/// Turn a fetched media entry into the interface's list item, field for
/// field.
pub fn media_item_of(m: MediaData) -> (r: MediaItem)
    ensures
        r.url == m.url,
        r.name == m.name,
        r.uploaded == m.uploaded,
{
    MediaItem { url: m.url, name: m.name, uploaded: m.uploaded }
}

} // verus!
