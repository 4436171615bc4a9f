//! The terminal interface's application state: tabs, item lists, selection,
//! previews and pending confirmations. Drawing and the event loop are plain
//! terminal I/O and live in the surrounding program; loading reads the disk
//! and the network there too, handing the finished item lists in.

use vstd::prelude::*;
use crate::chars::{chars_to_string, push_str_chars, str_eq, str_to_chars};

verus! {

/// The three views the interface switches between.
#[derive(Debug, Clone, Copy, PartialEq, Eq, Structural)]
pub enum Tab {
    Drafts,
    Posts,
    Media,
}

/// One local draft, as listed.
#[derive(Debug, Clone, PartialEq, Eq)]
pub struct DraftItem {
    pub id: String,
    pub title: String,
    pub post_type: String,
    pub categories: Vec<String>,
}

/// One published post, as listed.
#[derive(Debug, Clone, PartialEq, Eq)]
pub struct PostItem {
    pub url: String,
    pub content: String,
    pub name: Option<String>,
    pub published: String,
    pub categories: Vec<String>,
}

/// One uploaded media file, as listed.
#[derive(Debug, Clone, PartialEq, Eq)]
pub struct MediaItem {
    pub url: String,
    pub name: Option<String>,
    pub uploaded: String,
}

/// The action a confirmation prompt is waiting for.
#[derive(Debug, Clone, PartialEq, Eq)]
pub enum ConfirmationAction {
    DeleteDraft(String),
    PublishDraft(String),
    BackdateDraft(String),
    Idle,
}

/// The application state.
#[derive(Debug)]
pub struct App {
    pub current_tab: Tab,
    pub drafts: Vec<DraftItem>,
    pub posts: Vec<PostItem>,
    pub media: Vec<MediaItem>,
    pub selected_draft: usize,
    pub selected_post: usize,
    pub selected_media: usize,
    pub preview_content: Option<String>,
    pub error_message: Option<String>,
    pub status_message: Option<String>,
    pub confirmation_action: ConfirmationAction,
    pub quit_requested: bool,
    pub date_input: String,
}

/// A list of names joined with a comma and a space.
pub open spec fn joined_tail(items: Seq<Seq<char>>) -> Seq<char>
    decreases items.len(),
{
    if items.len() == 0 {
        Seq::empty()
    } else {
        ", "@ + items[0] + joined_tail(items.drop_first())
    }
}

/// The names joined with `", "`.
pub open spec fn joined_comma(items: Seq<Seq<char>>) -> Seq<char> {
    if items.len() == 0 {
        Seq::empty()
    } else {
        items[0] + joined_tail(items.drop_first())
    }
}

fn push_joined(out: &mut Vec<char>, items: &Vec<String>)
    ensures
        final(out)@ == old(out)@ + joined_comma(items.deep_view()),
{
    let ghost iv = items.deep_view();
    let ghost orig = out@;
    let n = items.len();
    if n == 0 {
        proof {
            assert(orig + Seq::<char>::empty() =~= orig);
        }
        return ;
    }
    proof {
        assert(items@[0].deep_view() == iv[0]);
    }
    push_str_chars(out, items[0].as_str());
    proof {
        assert(iv.skip(1) =~= iv.drop_first());
        assert(out@ + joined_tail(iv.skip(1)) =~= orig + joined_comma(iv));
    }
    for i in 1..n
        invariant
            n == iv.len(),
            iv == items.deep_view(),
            out@ + joined_tail(iv.skip(i as int)) == orig + joined_comma(iv),
    {
        let ghost rem = iv.skip(i as int);
        proof {
            reveal_strlit(", ");
            assert(rem[0] == iv[i as int]);
            assert(rem.drop_first() =~= iv.skip(i + 1 as int));
            assert(items@[i as int].deep_view() == iv[i as int]);
            assert(joined_tail(rem) == ", "@ + rem[0] + joined_tail(rem.drop_first()));
        }
        let ghost before = out@;
        push_str_chars(out, ", ");
        push_str_chars(out, items[i].as_str());
        proof {
            assert(out@ =~= before + (", "@ + iv[i as int]));
            assert(out@ + joined_tail(iv.skip(i + 1 as int)) =~= orig + joined_comma(iv));
        }
    }
    proof {
        assert(iv.skip(n as int) =~= Seq::<Seq<char>>::empty());
        assert(out@ + Seq::<char>::empty() =~= out@);
    }
}

/// The preview text of a draft, built from its listed metadata.
pub open spec fn draft_preview_spec(d: DraftItem) -> Seq<char> {
    "Title: "@ + d.title@ + "\nType: "@ + d.post_type@ + "\n"@ + (if d.categories@.len() > 0 {
        "Categories: "@ + joined_comma(d.categories.deep_view()) + "\n"@
    } else {
        Seq::empty()
    })
}

/// The preview text of a post.
pub open spec fn post_preview_spec(p: PostItem) -> Seq<char> {
    (match p.name {
        Some(name) => "Title: "@ + name@ + "\n\n"@,
        None => Seq::empty(),
    }) + "URL: "@ + p.url@ + "\nPublished: "@ + p.published@ + "\n"@ + (if p.categories@.len()
        > 0 {
        "Categories: "@ + joined_comma(p.categories.deep_view()) + "\n"@
    } else {
        Seq::empty()
    }) + "\n---\n\n"@ + p.content@
}

/// The preview text of a media item.
pub open spec fn media_preview_spec(m: MediaItem) -> Seq<char> {
    "URL: "@ + m.url@ + "\nUploaded: "@ + m.uploaded@ + "\n"@ + (match m.name {
        Some(name) => "\nName/Alt Text:\n"@ + name@ + "\n"@,
        None => Seq::empty(),
    })
}

/// The preview the current tab and selection call for: the selected item's
/// preview text, or nothing when the current tab's list is empty or the
/// selection lies outside it.
pub open spec fn preview_target(app: App) -> Option<Seq<char>> {
    match app.current_tab {
        Tab::Drafts => if app.drafts@.len() > 0 && app.selected_draft < app.drafts@.len() {
            Some(draft_preview_spec(app.drafts@[app.selected_draft as int]))
        } else {
            None
        },
        Tab::Posts => if app.posts@.len() > 0 && app.selected_post < app.posts@.len() {
            Some(post_preview_spec(app.posts@[app.selected_post as int]))
        } else {
            None
        },
        Tab::Media => if app.media@.len() > 0 && app.selected_media < app.media@.len() {
            Some(media_preview_spec(app.media@[app.selected_media as int]))
        } else {
            None
        },
    }
}

/// The preview matches what the tab and selection call for.
pub open spec fn preview_fresh(app: App) -> bool {
    match app.preview_content {
        Some(s) => preview_target(app) == Some(s@),
        None => preview_target(app) is None,
    }
}

/// Everything but the preview is unchanged between two states.
pub open spec fn same_but_preview(a: App, b: App) -> bool {
    &&& a.current_tab == b.current_tab
    &&& a.drafts == b.drafts
    &&& a.posts == b.posts
    &&& a.media == b.media
    &&& a.selected_draft == b.selected_draft
    &&& a.selected_post == b.selected_post
    &&& a.selected_media == b.selected_media
    &&& a.error_message == b.error_message
    &&& a.status_message == b.status_message
    &&& a.confirmation_action == b.confirmation_action
    &&& a.quit_requested == b.quit_requested
    &&& a.date_input == b.date_input
}

/// The item lists and selections are unchanged between two states.
pub open spec fn same_items_and_selection(a: App, b: App) -> bool {
    &&& a.drafts == b.drafts
    &&& a.posts == b.posts
    &&& a.media == b.media
    &&& a.selected_draft == b.selected_draft
    &&& a.selected_post == b.selected_post
    &&& a.selected_media == b.selected_media
}

fn draft_preview(d: &DraftItem) -> (r: String)
    ensures
        r@ == draft_preview_spec(*d),
{
    let mut out: Vec<char> = Vec::new();
    push_str_chars(&mut out, "Title: ");
    push_str_chars(&mut out, d.title.as_str());
    push_str_chars(&mut out, "\nType: ");
    push_str_chars(&mut out, d.post_type.as_str());
    push_str_chars(&mut out, "\n");
    if d.categories.len() > 0 {
        push_str_chars(&mut out, "Categories: ");
        push_joined(&mut out, &d.categories);
        push_str_chars(&mut out, "\n");
    }
    assert(out@ =~= draft_preview_spec(*d));
    chars_to_string(&out)
}

fn post_preview(p: &PostItem) -> (r: String)
    ensures
        r@ == post_preview_spec(*p),
{
    let mut out: Vec<char> = Vec::new();
    match &p.name {
        Some(name) => {
            push_str_chars(&mut out, "Title: ");
            push_str_chars(&mut out, name.as_str());
            push_str_chars(&mut out, "\n\n");
        },
        None => {},
    }
    push_str_chars(&mut out, "URL: ");
    push_str_chars(&mut out, p.url.as_str());
    push_str_chars(&mut out, "\nPublished: ");
    push_str_chars(&mut out, p.published.as_str());
    push_str_chars(&mut out, "\n");
    if p.categories.len() > 0 {
        push_str_chars(&mut out, "Categories: ");
        push_joined(&mut out, &p.categories);
        push_str_chars(&mut out, "\n");
    }
    push_str_chars(&mut out, "\n---\n\n");
    push_str_chars(&mut out, p.content.as_str());
    assert(out@ =~= post_preview_spec(*p));
    chars_to_string(&out)
}

fn media_preview(m: &MediaItem) -> (r: String)
    ensures
        r@ == media_preview_spec(*m),
{
    let mut out: Vec<char> = Vec::new();
    push_str_chars(&mut out, "URL: ");
    push_str_chars(&mut out, m.url.as_str());
    push_str_chars(&mut out, "\nUploaded: ");
    push_str_chars(&mut out, m.uploaded.as_str());
    push_str_chars(&mut out, "\n");
    match &m.name {
        Some(name) => {
            push_str_chars(&mut out, "\nName/Alt Text:\n");
            push_str_chars(&mut out, name.as_str());
            push_str_chars(&mut out, "\n");
        },
        None => {},
    }
    assert(out@ =~= media_preview_spec(*m));
    chars_to_string(&out)
}

/// The first position of a draft with the wanted identifier.
pub open spec fn draft_position(ds: Seq<DraftItem>, id: Seq<char>) -> Option<int>
    decreases ds.len(),
{
    if ds.len() == 0 {
        None
    } else if ds[0].id@ == id {
        Some(0int)
    } else {
        match draft_position(ds.drop_first(), id) {
            Some(i) => Some(i + 1),
            None => None,
        }
    }
}

proof fn lemma_draft_position(ds: Seq<DraftItem>, id: Seq<char>)
    ensures
        match draft_position(ds, id) {
            Some(i) => 0 <= i < ds.len() && ds[i].id@ == id && (forall|j: int|
                0 <= j < i ==> ds[j].id@ != id),
            None => forall|j: int| 0 <= j < ds.len() ==> ds[j].id@ != id,
        },
    decreases ds.len(),
{
    if ds.len() > 0 && ds[0].id@ != id {
        let t = ds.drop_first();
        lemma_draft_position(t, id);
        match draft_position(t, id) {
            Some(i) => {
                assert(t[i] == ds[i + 1]);
                assert forall|j: int| 0 <= j < i + 1 implies ds[j].id@ != id by {
                    if j > 0 {
                        assert(ds[j] == t[j - 1]);
                    }
                }
            },
            None => {
                assert forall|j: int| 0 <= j < ds.len() implies ds[j].id@ != id by {
                    if j > 0 {
                        assert(ds[j] == t[j - 1]);
                    }
                }
            },
        }
    }
}

impl App {
    /// A freshly loaded application state: the given item lists, the drafts
    /// tab selected, and the preview already brought up to date.
    pub fn new(drafts: Vec<DraftItem>, posts: Vec<PostItem>, media: Vec<MediaItem>) -> (r: App)
        ensures
            r.current_tab == Tab::Drafts,
            r.drafts == drafts,
            r.posts == posts,
            r.media == media,
            r.selected_draft == 0 && r.selected_post == 0 && r.selected_media == 0,
            r.error_message is None && r.status_message is None,
            r.confirmation_action == ConfirmationAction::Idle,
            !r.quit_requested,
            r.date_input@.len() == 0,
            preview_fresh(r),
    {
        let mut app = App {
            current_tab: Tab::Drafts,
            drafts,
            posts,
            media,
            selected_draft: 0,
            selected_post: 0,
            selected_media: 0,
            preview_content: None,
            error_message: None,
            status_message: None,
            confirmation_action: ConfirmationAction::Idle,
            quit_requested: false,
            date_input: String::new(),
        };
        app.update_preview();
        app
    }

    /// Replace the draft list with a freshly loaded one.
    pub fn load_drafts(&mut self, items: Vec<DraftItem>)
        ensures
            final(self).drafts == items,
            final(self).current_tab == old(self).current_tab,
            final(self).posts == old(self).posts && final(self).media == old(self).media,
            final(self).selected_draft == old(self).selected_draft,
            final(self).selected_post == old(self).selected_post,
            final(self).selected_media == old(self).selected_media,
            final(self).preview_content == old(self).preview_content,
            final(self).error_message == old(self).error_message,
            final(self).status_message == old(self).status_message,
            final(self).confirmation_action == old(self).confirmation_action,
            final(self).quit_requested == old(self).quit_requested,
            final(self).date_input == old(self).date_input,
    {
        self.drafts = items;
    }

    /// Bring the preview in line with the current tab and selection.
    pub fn update_preview(&mut self)
        ensures
            same_but_preview(*old(self), *final(self)),
            preview_fresh(*final(self)),
    {
        self.preview_content = None;
        match self.current_tab {
            Tab::Drafts => {
                if self.drafts.len() > 0 && self.selected_draft < self.drafts.len() {
                    let text = draft_preview(&self.drafts[self.selected_draft]);
                    self.preview_content = Some(text);
                }
            },
            Tab::Posts => {
                if self.posts.len() > 0 && self.selected_post < self.posts.len() {
                    let text = post_preview(&self.posts[self.selected_post]);
                    self.preview_content = Some(text);
                }
            },
            Tab::Media => {
                if self.media.len() > 0 && self.selected_media < self.media.len() {
                    let text = media_preview(&self.media[self.selected_media]);
                    self.preview_content = Some(text);
                }
            },
        }
    }

    /// Switch to the tab to the right, cyclically, and refresh the preview.
    pub fn next_tab(&mut self)
        ensures
            final(self).current_tab == (match old(self).current_tab {
                Tab::Drafts => Tab::Posts,
                Tab::Posts => Tab::Media,
                Tab::Media => Tab::Drafts,
            }),
            same_items_and_selection(*old(self), *final(self)),
            final(self).error_message == old(self).error_message,
            final(self).status_message == old(self).status_message,
            final(self).confirmation_action == old(self).confirmation_action,
            final(self).quit_requested == old(self).quit_requested,
            final(self).date_input == old(self).date_input,
            preview_fresh(*final(self)),
    {
        self.current_tab = match self.current_tab {
            Tab::Drafts => Tab::Posts,
            Tab::Posts => Tab::Media,
            Tab::Media => Tab::Drafts,
        };
        self.update_preview();
    }

    /// Switch to the tab to the left, cyclically, and refresh the preview.
    pub fn previous_tab(&mut self)
        ensures
            final(self).current_tab == (match old(self).current_tab {
                Tab::Drafts => Tab::Media,
                Tab::Posts => Tab::Drafts,
                Tab::Media => Tab::Posts,
            }),
            same_items_and_selection(*old(self), *final(self)),
            final(self).error_message == old(self).error_message,
            final(self).status_message == old(self).status_message,
            final(self).confirmation_action == old(self).confirmation_action,
            final(self).quit_requested == old(self).quit_requested,
            final(self).date_input == old(self).date_input,
            preview_fresh(*final(self)),
    {
        self.current_tab = match self.current_tab {
            Tab::Drafts => Tab::Media,
            Tab::Posts => Tab::Drafts,
            Tab::Media => Tab::Posts,
        };
        self.update_preview();
    }

    /// Move the selection one item down in the current tab's list, wrapping
    /// at the end; an empty list leaves everything untouched.
    pub fn next_item(&mut self)
        ensures
            final(self).current_tab == old(self).current_tab,
            final(self).drafts == old(self).drafts,
            final(self).posts == old(self).posts,
            final(self).media == old(self).media,
            final(self).error_message == old(self).error_message,
            final(self).status_message == old(self).status_message,
            final(self).confirmation_action == old(self).confirmation_action,
            final(self).quit_requested == old(self).quit_requested,
            final(self).date_input == old(self).date_input,
            match old(self).current_tab {
                Tab::Drafts => {
                    &&& final(self).selected_post == old(self).selected_post
                    &&& final(self).selected_media == old(self).selected_media
                    &&& if old(self).drafts@.len() > 0 {
                        final(self).selected_draft == ((old(self).selected_draft + 1) as int % (
                        old(self).drafts@.len() as int)) && preview_fresh(*final(self))
                    } else {
                        final(self).selected_draft == old(self).selected_draft && final(self).preview_content == old(self).preview_content
                    }
                },
                Tab::Posts => {
                    &&& final(self).selected_draft == old(self).selected_draft
                    &&& final(self).selected_media == old(self).selected_media
                    &&& if old(self).posts@.len() > 0 {
                        final(self).selected_post == ((old(self).selected_post + 1) as int % (
                        old(self).posts@.len() as int)) && preview_fresh(*final(self))
                    } else {
                        final(self).selected_post == old(self).selected_post && final(self).preview_content == old(self).preview_content
                    }
                },
                Tab::Media => {
                    &&& final(self).selected_draft == old(self).selected_draft
                    &&& final(self).selected_post == old(self).selected_post
                    &&& if old(self).media@.len() > 0 {
                        final(self).selected_media == ((old(self).selected_media + 1) as int % (
                        old(self).media@.len() as int)) && preview_fresh(*final(self))
                    } else {
                        final(self).selected_media == old(self).selected_media && final(self).preview_content == old(self).preview_content
                    }
                },
            },
    {
        match self.current_tab {
            Tab::Drafts => {
                if self.drafts.len() > 0 {
                    let len = self.drafts.len();
                    proof {
                        vstd::arithmetic::div_mod::lemma_add_mod_noop_right(
                            1,
                            self.selected_draft as int,
                            len as int,
                        );
                    }
                    assert(self.selected_draft % len < len);
                    self.selected_draft = (self.selected_draft % len + 1) % len;
                    self.update_preview();
                }
            },
            Tab::Posts => {
                if self.posts.len() > 0 {
                    let len = self.posts.len();
                    proof {
                        vstd::arithmetic::div_mod::lemma_add_mod_noop_right(
                            1,
                            self.selected_post as int,
                            len as int,
                        );
                    }
                    assert(self.selected_post % len < len);
                    self.selected_post = (self.selected_post % len + 1) % len;
                    self.update_preview();
                }
            },
            Tab::Media => {
                if self.media.len() > 0 {
                    let len = self.media.len();
                    proof {
                        vstd::arithmetic::div_mod::lemma_add_mod_noop_right(
                            1,
                            self.selected_media as int,
                            len as int,
                        );
                    }
                    assert(self.selected_media % len < len);
                    self.selected_media = (self.selected_media % len + 1) % len;
                    self.update_preview();
                }
            },
        }
    }

    /// Move the selection one item up in the current tab's list, wrapping at
    /// the start; an empty list leaves everything untouched.
    pub fn previous_item(&mut self)
        ensures
            final(self).current_tab == old(self).current_tab,
            final(self).drafts == old(self).drafts,
            final(self).posts == old(self).posts,
            final(self).media == old(self).media,
            final(self).error_message == old(self).error_message,
            final(self).status_message == old(self).status_message,
            final(self).confirmation_action == old(self).confirmation_action,
            final(self).quit_requested == old(self).quit_requested,
            final(self).date_input == old(self).date_input,
            match old(self).current_tab {
                Tab::Drafts => {
                    &&& final(self).selected_post == old(self).selected_post
                    &&& final(self).selected_media == old(self).selected_media
                    &&& if old(self).drafts@.len() > 0 {
                        final(self).selected_draft == (if old(self).selected_draft == 0 {
                            old(self).drafts@.len() - 1
                        } else {
                            old(self).selected_draft - 1
                        }) && preview_fresh(*final(self))
                    } else {
                        final(self).selected_draft == old(self).selected_draft && final(self).preview_content == old(self).preview_content
                    }
                },
                Tab::Posts => {
                    &&& final(self).selected_draft == old(self).selected_draft
                    &&& final(self).selected_media == old(self).selected_media
                    &&& if old(self).posts@.len() > 0 {
                        final(self).selected_post == (if old(self).selected_post == 0 {
                            old(self).posts@.len() - 1
                        } else {
                            old(self).selected_post - 1
                        }) && preview_fresh(*final(self))
                    } else {
                        final(self).selected_post == old(self).selected_post && final(self).preview_content == old(self).preview_content
                    }
                },
                Tab::Media => {
                    &&& final(self).selected_draft == old(self).selected_draft
                    &&& final(self).selected_post == old(self).selected_post
                    &&& if old(self).media@.len() > 0 {
                        final(self).selected_media == (if old(self).selected_media == 0 {
                            old(self).media@.len() - 1
                        } else {
                            old(self).selected_media - 1
                        }) && preview_fresh(*final(self))
                    } else {
                        final(self).selected_media == old(self).selected_media && final(self).preview_content == old(self).preview_content
                    }
                },
            },
    {
        match self.current_tab {
            Tab::Drafts => {
                if self.drafts.len() > 0 {
                    self.selected_draft = if self.selected_draft == 0 {
                        self.drafts.len() - 1
                    } else {
                        self.selected_draft - 1
                    };
                    self.update_preview();
                }
            },
            Tab::Posts => {
                if self.posts.len() > 0 {
                    self.selected_post = if self.selected_post == 0 {
                        self.posts.len() - 1
                    } else {
                        self.selected_post - 1
                    };
                    self.update_preview();
                }
            },
            Tab::Media => {
                if self.media.len() > 0 {
                    self.selected_media = if self.selected_media == 0 {
                        self.media.len() - 1
                    } else {
                        self.selected_media - 1
                    };
                    self.update_preview();
                }
            },
        }
    }

    /// On the drafts tab, hand out the selected draft's identifier for
    /// editing; on any other tab, record that editing is not available.
    pub fn edit_item(&mut self) -> (r: Option<String>)
        ensures
            final(self).current_tab == old(self).current_tab,
            same_items_and_selection(*old(self), *final(self)),
            final(self).preview_content == old(self).preview_content,
            final(self).status_message == old(self).status_message,
            final(self).confirmation_action == old(self).confirmation_action,
            final(self).quit_requested == old(self).quit_requested,
            final(self).date_input == old(self).date_input,
            match old(self).current_tab {
                Tab::Drafts => final(self).error_message == old(self).error_message && (match r {
                    Some(id) => old(self).selected_draft < old(self).drafts@.len() && id@ == old(self).drafts@[old(self).selected_draft as int].id@,
                    None => old(self).selected_draft >= old(self).drafts@.len(),
                }),
                _ => r is None && (match final(self).error_message {
                    Some(m) => m@ == "Edit not available for this view"@,
                    None => false,
                }),
            },
    {
        match self.current_tab {
            Tab::Drafts => {
                if self.selected_draft < self.drafts.len() {
                    Some(self.drafts[self.selected_draft].id.clone())
                } else {
                    None
                }
            },
            _ => {
                self.error_message = Some("Edit not available for this view".to_owned());
                None
            },
        }
    }

    /// On the drafts tab with a selected draft, ask for confirmation before
    /// publishing it; anywhere else this does nothing.
    pub fn publish_draft(&mut self)
        ensures
            final(self).current_tab == old(self).current_tab,
            same_items_and_selection(*old(self), *final(self)),
            final(self).preview_content == old(self).preview_content,
            final(self).error_message == old(self).error_message,
            final(self).quit_requested == old(self).quit_requested,
            final(self).date_input == old(self).date_input,
            if old(self).current_tab == Tab::Drafts && old(self).drafts@.len() > 0 && old(self).selected_draft < old(self).drafts@.len() {
                (match final(self).confirmation_action {
                    ConfirmationAction::PublishDraft(id) => id@ == old(self).drafts@[old(self).selected_draft as int].id@,
                    _ => false,
                }) && (match final(self).status_message {
                    Some(m) => m@ == "Publish draft? (y/n)"@,
                    None => false,
                })
            } else {
                final(self).confirmation_action == old(self).confirmation_action && final(self).status_message == old(self).status_message
            },
    {
        if !(matches!(self.current_tab, Tab::Drafts)) || self.drafts.len() == 0 {
            return ;
        }
        if self.selected_draft < self.drafts.len() {
            let id = self.drafts[self.selected_draft].id.clone();
            self.confirmation_action = ConfirmationAction::PublishDraft(id);
            self.status_message = Some("Publish draft? (y/n)".to_owned());
        }
    }

    /// On the drafts tab with a selected draft, ask for confirmation before
    /// deleting it; anywhere else this does nothing.
    pub fn delete_item(&mut self)
        ensures
            final(self).current_tab == old(self).current_tab,
            same_items_and_selection(*old(self), *final(self)),
            final(self).preview_content == old(self).preview_content,
            final(self).error_message == old(self).error_message,
            final(self).quit_requested == old(self).quit_requested,
            final(self).date_input == old(self).date_input,
            if old(self).current_tab == Tab::Drafts && old(self).drafts@.len() > 0 && old(self).selected_draft < old(self).drafts@.len() {
                (match final(self).confirmation_action {
                    ConfirmationAction::DeleteDraft(id) => id@ == old(self).drafts@[old(self).selected_draft as int].id@,
                    _ => false,
                }) && (match final(self).status_message {
                    Some(m) => m@ == "Delete draft? (y/n)"@,
                    None => false,
                })
            } else {
                final(self).confirmation_action == old(self).confirmation_action && final(self).status_message == old(self).status_message
            },
    {
        if !(matches!(self.current_tab, Tab::Drafts)) || self.drafts.len() == 0 {
            return ;
        }
        if self.selected_draft < self.drafts.len() {
            let id = self.drafts[self.selected_draft].id.clone();
            self.confirmation_action = ConfirmationAction::DeleteDraft(id);
            self.status_message = Some("Delete draft? (y/n)".to_owned());
        }
    }

    /// On the drafts tab with a selected draft, start collecting a date for a
    /// backdated publish; anywhere else this does nothing.
    pub fn backdate_draft(&mut self)
        ensures
            final(self).current_tab == old(self).current_tab,
            same_items_and_selection(*old(self), *final(self)),
            final(self).preview_content == old(self).preview_content,
            final(self).error_message == old(self).error_message,
            final(self).quit_requested == old(self).quit_requested,
            if old(self).current_tab == Tab::Drafts && old(self).drafts@.len() > 0 && old(self).selected_draft < old(self).drafts@.len() {
                (match final(self).confirmation_action {
                    ConfirmationAction::BackdateDraft(id) => id@ == old(self).drafts@[old(self).selected_draft as int].id@,
                    _ => false,
                }) && final(self).date_input@.len() == 0 && (match final(self).status_message {
                    Some(m) => m@ == "Enter date (ISO 8601, e.g., 2024-01-15T10:30:00Z):"@,
                    None => false,
                })
            } else {
                final(self).confirmation_action == old(self).confirmation_action && final(self).status_message == old(self).status_message && final(self).date_input == old(self).date_input
            },
    {
        if !(matches!(self.current_tab, Tab::Drafts)) || self.drafts.len() == 0 {
            return ;
        }
        if self.selected_draft < self.drafts.len() {
            let id = self.drafts[self.selected_draft].id.clone();
            self.confirmation_action = ConfirmationAction::BackdateDraft(id);
            self.date_input = String::new();
            self.status_message = Some(
                "Enter date (ISO 8601, e.g., 2024-01-15T10:30:00Z):".to_owned(),
            );
        }
    }

    /// Hand out a fresh identifier for a new draft.
    pub fn new_draft(&mut self) -> (r: String)
        ensures
            *final(self) == *old(self),
            r@.len() == 36,
    {
        crate::push::generate_draft_id()
    }

    /// Replace the draft list with a freshly loaded one and select the draft
    /// just created; the preview follows the new selection.
    pub fn reload_and_select_draft(&mut self, items: Vec<DraftItem>, draft_id: &str)
        ensures
            final(self).drafts == items,
            final(self).current_tab == old(self).current_tab,
            final(self).posts == old(self).posts && final(self).media == old(self).media,
            final(self).selected_post == old(self).selected_post,
            final(self).selected_media == old(self).selected_media,
            final(self).confirmation_action == old(self).confirmation_action,
            final(self).quit_requested == old(self).quit_requested,
            final(self).date_input == old(self).date_input,
            match draft_position(items@, draft_id@) {
                Some(i) => {
                    &&& final(self).selected_draft == i
                    &&& preview_fresh(*final(self))
                    &&& final(self).error_message == old(self).error_message
                    &&& match final(self).status_message {
                        Some(m) => m@ == "Draft created: "@ + draft_id@,
                        None => false,
                    }
                },
                None => {
                    &&& final(self).selected_draft == old(self).selected_draft
                    &&& final(self).preview_content == old(self).preview_content
                    &&& final(self).status_message == old(self).status_message
                    &&& match final(self).error_message {
                        Some(m) => m@ == "Draft created but not found in list"@,
                        None => false,
                    }
                },
            },
    {
        self.drafts = items;
        let ghost ds = self.drafts@;
        let n = self.drafts.len();
        for i in 0..n
            invariant
                n == ds.len(),
                ds == self.drafts@,
                ds == items@,
                self.drafts == items,
                self.current_tab == old(self).current_tab,
                self.posts == old(self).posts && self.media == old(self).media,
                self.selected_draft == old(self).selected_draft,
                self.selected_post == old(self).selected_post,
                self.selected_media == old(self).selected_media,
                self.preview_content == old(self).preview_content,
                self.error_message == old(self).error_message,
                self.status_message == old(self).status_message,
                self.confirmation_action == old(self).confirmation_action,
                self.quit_requested == old(self).quit_requested,
                self.date_input == old(self).date_input,
                forall|j: int| 0 <= j < i ==> ds[j].id@ != draft_id@,
        {
            if str_eq(self.drafts[i].id.as_str(), draft_id) {
                proof {
                    lemma_draft_position(ds, draft_id@);
                    match draft_position(ds, draft_id@) {
                        Some(k) => {
                            if k < i {
                                assert(ds[k].id@ != draft_id@);
                            }
                            if k > i {
                                assert(ds[i as int].id@ != draft_id@);
                            }
                            assert(k == i);
                        },
                        None => {
                            assert(ds[i as int].id@ != draft_id@);
                        },
                    }
                }
                self.selected_draft = i;
                self.update_preview();
                let mut msg: Vec<char> = Vec::new();
                push_str_chars(&mut msg, "Draft created: ");
                push_str_chars(&mut msg, draft_id);
                self.status_message = Some(chars_to_string(&msg));
                return ;
            }
        }
        proof {
            lemma_draft_position(ds, draft_id@);
            match draft_position(ds, draft_id@) {
                Some(k) => {
                    assert(ds[k].id@ != draft_id@);
                },
                None => {},
            }
        }
        self.error_message = Some("Draft created but not found in list".to_owned());
    }

    /// The first press of quit asks for a second one; the second quits.
    pub fn confirm_quit(&mut self) -> (r: bool)
        ensures
            final(self).current_tab == old(self).current_tab,
            same_items_and_selection(*old(self), *final(self)),
            final(self).preview_content == old(self).preview_content,
            final(self).error_message == old(self).error_message,
            final(self).confirmation_action == old(self).confirmation_action,
            final(self).date_input == old(self).date_input,
            r == old(self).quit_requested,
            !old(self).quit_requested ==> final(self).quit_requested && (match final(self).status_message {
                Some(m) => m@ == "Press 'q' again to quit"@,
                None => false,
            }),
            old(self).quit_requested ==> *final(self) == *old(self),
    {
        if !self.quit_requested {
            self.quit_requested = true;
            self.status_message = Some("Press 'q' again to quit".to_owned());
            false
        } else {
            true
        }
    }

    /// Is a confirmation prompt pending?
    pub fn awaiting_confirmation(&self) -> (r: bool)
        ensures
            r == !(self.confirmation_action is Idle),
    {
        match self.confirmation_action {
            ConfirmationAction::Idle => false,
            _ => true,
        }
    }

    /// Dismiss a pending confirmation.
    pub fn cancel_action(&mut self)
        ensures
            final(self).current_tab == old(self).current_tab,
            same_items_and_selection(*old(self), *final(self)),
            final(self).preview_content == old(self).preview_content,
            final(self).error_message == old(self).error_message,
            final(self).quit_requested == old(self).quit_requested,
            final(self).confirmation_action == ConfirmationAction::Idle,
            final(self).date_input@.len() == 0,
            match final(self).status_message {
                Some(m) => m@ == "Action cancelled"@,
                None => false,
            },
    {
        self.confirmation_action = ConfirmationAction::Idle;
        self.date_input = String::new();
        self.status_message = Some("Action cancelled".to_owned());
    }

    /// Clear the transient messages and the pending quit request.
    pub fn clear_error(&mut self)
        ensures
            final(self).current_tab == old(self).current_tab,
            same_items_and_selection(*old(self), *final(self)),
            final(self).preview_content == old(self).preview_content,
            final(self).confirmation_action == old(self).confirmation_action,
            final(self).date_input == old(self).date_input,
            final(self).error_message is None,
            final(self).status_message is None,
            !final(self).quit_requested,
    {
        self.error_message = None;
        self.status_message = None;
        self.quit_requested = false;
    }

    /// Is the interface collecting a date for a backdated publish?
    pub fn awaiting_date_input(&self) -> (r: bool)
        ensures
            r == (self.confirmation_action is BackdateDraft),
    {
        match self.confirmation_action {
            ConfirmationAction::BackdateDraft(_) => true,
            _ => false,
        }
    }

    /// Append one character to the date being typed.
    pub fn add_date_char(&mut self, c: char)
        ensures
            final(self).date_input@ == old(self).date_input@.push(c),
            final(self).current_tab == old(self).current_tab,
            same_items_and_selection(*old(self), *final(self)),
            final(self).preview_content == old(self).preview_content,
            final(self).error_message == old(self).error_message,
            final(self).status_message == old(self).status_message,
            final(self).confirmation_action == old(self).confirmation_action,
            final(self).quit_requested == old(self).quit_requested,
    {
        let mut v = str_to_chars(self.date_input.as_str());
        v.push(c);
        self.date_input = chars_to_string(&v);
    }

    /// Remove the last character of the date being typed, if any.
    pub fn delete_date_char(&mut self)
        ensures
            final(self).date_input@ == (if old(self).date_input@.len() > 0 {
                old(self).date_input@.drop_last()
            } else {
                old(self).date_input@
            }),
            final(self).current_tab == old(self).current_tab,
            same_items_and_selection(*old(self), *final(self)),
            final(self).preview_content == old(self).preview_content,
            final(self).error_message == old(self).error_message,
            final(self).status_message == old(self).status_message,
            final(self).confirmation_action == old(self).confirmation_action,
            final(self).quit_requested == old(self).quit_requested,
    {
        let mut v = str_to_chars(self.date_input.as_str());
        if v.len() > 0 {
            v.pop();
            self.date_input = chars_to_string(&v);
        }
    }
}

} // verus!
