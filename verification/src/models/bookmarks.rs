use vstd::prelude::*;

use crate::models::account::Account;
use crate::models::favicon_cache::FaviconCache;
use crate::text::texts;

verus! {

/// A bookmark as the library keeps it. `linkding_internal_id` is the
/// identifier on the remote instance, `id` the one in the local database.
#[derive(Debug, Clone)]
pub struct Bookmark {
    pub id: Option<i64>,
    pub user_account_id: Option<i64>,
    pub linkding_internal_id: Option<i64>,
    pub url: String,
    pub title: String,
    pub description: String,
    pub website_title: Option<String>,
    pub website_description: Option<String>,
    pub notes: String,
    pub web_archive_snapshot_url: String,
    pub favicon_url: Option<String>,
    pub preview_image_url: Option<String>,
    pub is_archived: bool,
    pub unread: bool,
    pub shared: bool,
    pub tag_names: Vec<String>,
    pub date_added: Option<String>,
    pub date_modified: Option<String>,
    pub is_owner: Option<bool>,
    pub favicon_cached: Option<FaviconCache>,
}

/// The characters of an optional text.
pub open spec fn opt_text(o: Option<String>) -> Option<Seq<char>> {
    match o {
        Some(t) => Some(t@),
        None => None,
    }
}

/// The first of two optional values that is present (`Option::or`).
pub open spec fn first_some<T>(a: Option<T>, b: Option<T>) -> Option<T> {
    match a {
        Some(x) => Some(x),
        None => b,
    }
}

fn or_string(a: Option<String>, b: Option<String>) -> (res: Option<String>)
    ensures
        res == first_some(a, b),
{
    match a {
        Some(x) => Some(x),
        None => b,
    }
}

fn or_id(a: Option<i64>, b: Option<i64>) -> (res: Option<i64>)
    ensures
        res == first_some(a, b),
{
    match a {
        Some(x) => Some(x),
        None => b,
    }
}

impl Bookmark {
    /// A bookmark built from the values a linkding response holds; the
    /// optional website fields, favicon and preview are always present, the
    /// local identifier and the favicon cache are not.
    #[allow(clippy::too_many_arguments)]
    pub fn new(
        account_id: Option<i64>,
        linkding_id: Option<i64>,
        linkding_url: String,
        linkding_title: String,
        linkding_description: String,
        linkding_website_title: String,
        linkding_website_description: String,
        linkding_notes: String,
        linkding_web_archive_snapshot_url: String,
        linkding_favicon_url: String,
        linkding_preview_image_url: String,
        linkding_is_archived: bool,
        linkding_unread: bool,
        linkding_shared: bool,
        linkding_tag_names: Vec<String>,
        linkding_date_added: Option<String>,
        linkding_date_modified: Option<String>,
        internal_workaround_is_owner: Option<bool>,
    ) -> (res: Self)
        ensures
            res.id is None,
            res.user_account_id == account_id,
            res.linkding_internal_id == linkding_id,
            res.url == linkding_url,
            res.title == linkding_title,
            res.description == linkding_description,
            res.website_title == Some(linkding_website_title),
            res.website_description == Some(linkding_website_description),
            res.notes == linkding_notes,
            res.web_archive_snapshot_url == linkding_web_archive_snapshot_url,
            res.favicon_url == Some(linkding_favicon_url),
            res.preview_image_url == Some(linkding_preview_image_url),
            res.is_archived == linkding_is_archived,
            res.unread == linkding_unread,
            res.shared == linkding_shared,
            res.tag_names == linkding_tag_names,
            res.date_added == linkding_date_added,
            res.date_modified == linkding_date_modified,
            res.is_owner == internal_workaround_is_owner,
            res.favicon_cached is None,
    {
        Bookmark {
            id: None,
            user_account_id: account_id,
            linkding_internal_id: linkding_id,
            url: linkding_url,
            title: linkding_title,
            description: linkding_description,
            website_title: Some(linkding_website_title),
            website_description: Some(linkding_website_description),
            notes: linkding_notes,
            web_archive_snapshot_url: linkding_web_archive_snapshot_url,
            favicon_url: Some(linkding_favicon_url),
            preview_image_url: Some(linkding_preview_image_url),
            is_archived: linkding_is_archived,
            unread: linkding_unread,
            shared: linkding_shared,
            tag_names: linkding_tag_names,
            date_added: linkding_date_added,
            date_modified: linkding_date_modified,
            is_owner: internal_workaround_is_owner,
            favicon_cached: None,
        }
    }

    /// What merging `other` into `self` gives: the content that the user edits
    /// comes from `other`; identifiers, website metadata, favicon, preview and
    /// dates are kept from `self` where present and taken from `other`
    /// otherwise; ownership and the favicon cache stay those of `self`.
    pub open spec fn merge_spec(self, other: Self) -> Self {
        Bookmark {
            id: first_some(self.id, other.id),
            user_account_id: first_some(self.user_account_id, other.user_account_id),
            linkding_internal_id: first_some(self.linkding_internal_id, other.linkding_internal_id),
            url: other.url,
            title: other.title,
            description: other.description,
            website_title: first_some(self.website_title, other.website_title),
            website_description: first_some(self.website_description, other.website_description),
            notes: other.notes,
            web_archive_snapshot_url: other.web_archive_snapshot_url,
            favicon_url: first_some(self.favicon_url, other.favicon_url),
            preview_image_url: first_some(self.preview_image_url, other.preview_image_url),
            is_archived: other.is_archived,
            unread: other.unread,
            shared: other.shared,
            tag_names: other.tag_names,
            date_added: first_some(self.date_added, other.date_added),
            date_modified: first_some(self.date_modified, other.date_modified),
            is_owner: self.is_owner,
            favicon_cached: self.favicon_cached,
        }
    }

    /// Merges a newer copy of a bookmark into this one.
    pub fn merge(self, other: Self) -> (res: Self)
        ensures
            res == self.merge_spec(other),
    {
        Bookmark {
            id: or_id(self.id, other.id),
            user_account_id: or_id(self.user_account_id, other.user_account_id),
            linkding_internal_id: or_id(self.linkding_internal_id, other.linkding_internal_id),
            url: other.url,
            title: other.title,
            description: other.description,
            website_title: or_string(self.website_title, other.website_title),
            website_description: or_string(self.website_description, other.website_description),
            notes: other.notes,
            web_archive_snapshot_url: other.web_archive_snapshot_url,
            favicon_url: or_string(self.favicon_url, other.favicon_url),
            preview_image_url: or_string(self.preview_image_url, other.preview_image_url),
            is_archived: other.is_archived,
            unread: other.unread,
            shared: other.shared,
            tag_names: other.tag_names,
            date_added: or_string(self.date_added, other.date_added),
            date_modified: or_string(self.date_modified, other.date_modified),
            is_owner: self.is_owner,
            favicon_cached: self.favicon_cached,
        }
    }

    /// Whether `other` holds the same values as this bookmark, texts
    /// compared by their characters.
    pub open spec fn same_as(self, other: Self) -> bool {
        &&& self.id == other.id
        &&& self.user_account_id == other.user_account_id
        &&& self.linkding_internal_id == other.linkding_internal_id
        &&& self.url@ == other.url@
        &&& self.title@ == other.title@
        &&& self.description@ == other.description@
        &&& opt_text(self.website_title) == opt_text(other.website_title)
        &&& opt_text(self.website_description) == opt_text(other.website_description)
        &&& self.notes@ == other.notes@
        &&& self.web_archive_snapshot_url@ == other.web_archive_snapshot_url@
        &&& opt_text(self.favicon_url) == opt_text(other.favicon_url)
        &&& opt_text(self.preview_image_url) == opt_text(other.preview_image_url)
        &&& self.is_archived == other.is_archived
        &&& self.unread == other.unread
        &&& self.shared == other.shared
        &&& texts(self.tag_names@) == texts(other.tag_names@)
        &&& opt_text(self.date_added) == opt_text(other.date_added)
        &&& opt_text(self.date_modified) == opt_text(other.date_modified)
        &&& self.is_owner == other.is_owner
        &&& match (self.favicon_cached, other.favicon_cached) {
            (Some(a), Some(b)) => a.favicon_url@ == b.favicon_url@ && a.favicon_data@
                == b.favicon_data@ && a.last_sync_timestamp == b.last_sync_timestamp,
            (None, None) => true,
            _ => false,
        }
    }

    /// A copy of the bookmark.
    pub fn duplicate(&self) -> (res: Bookmark)
        ensures
            res.same_as(*self),
    {
        Bookmark {
            id: self.id,
            user_account_id: self.user_account_id,
            linkding_internal_id: self.linkding_internal_id,
            url: self.url.clone(),
            title: self.title.clone(),
            description: self.description.clone(),
            website_title: copy_text(&self.website_title),
            website_description: copy_text(&self.website_description),
            notes: self.notes.clone(),
            web_archive_snapshot_url: self.web_archive_snapshot_url.clone(),
            favicon_url: copy_text(&self.favicon_url),
            preview_image_url: copy_text(&self.preview_image_url),
            is_archived: self.is_archived,
            unread: self.unread,
            shared: self.shared,
            tag_names: self.tag_names.clone(),
            date_added: copy_text(&self.date_added),
            date_modified: copy_text(&self.date_modified),
            is_owner: self.is_owner,
            favicon_cached: match &self.favicon_cached {
                Some(f) => Some(
                    FaviconCache::new(
                        f.favicon_url.clone(),
                        f.favicon_data.clone(),
                        f.last_sync_timestamp,
                    ),
                ),
                None => None,
            },
        }
    }
}

fn copy_text(t: &Option<String>) -> (res: Option<String>)
    ensures
        res == *t,
{
    match t {
        Some(v) => Some(v.clone()),
        None => None,
    }
}

/// Merging is idempotent: merging a bookmark with itself gives it back.
pub proof fn lemma_merge_self(b: Bookmark)
    ensures
        b.merge_spec(b) == b,
{
}

/// Merging a merge again with the same newer copy changes nothing:
/// `a.merge(b).merge(b) == a.merge(b)`.
pub proof fn lemma_merge_absorbs(a: Bookmark, b: Bookmark)
    ensures
        a.merge_spec(b).merge_spec(b) == a.merge_spec(b),
{
}

/// One page of the linkding bookmark list.
#[derive(Debug, Clone)]
pub struct LinkdingBookmarksApiResponse {
    pub count: u64,
    pub next: Option<String>,
    pub previous: Option<String>,
    pub results: Vec<Bookmark>,
}

/// The outcome of fetching the bookmarks of one account.
#[derive(Debug, Clone)]
pub struct DetailedResponse {
    pub account: Account,
    pub timestamp: i64,
    pub successful: bool,
    pub bookmarks: Option<Vec<Bookmark>>,
}

impl DetailedResponse {
    pub fn new(
        response_account: Account,
        response_timestamp: i64,
        response_successful: bool,
        response_bookmarks: Option<Vec<Bookmark>>,
    ) -> (res: Self)
        ensures
            res.account == response_account,
            res.timestamp == response_timestamp,
            res.successful == response_successful,
            res.bookmarks == response_bookmarks,
    {
        DetailedResponse {
            account: response_account,
            timestamp: response_timestamp,
            successful: response_successful,
            bookmarks: response_bookmarks,
        }
    }
}

/// Metadata that linkding scraped for a URL.
#[derive(Debug, Clone)]
pub struct LinkdingBookmarksApiCheckMetadata {
    pub url: Option<String>,
    pub title: Option<String>,
    pub description: Option<String>,
    pub preview_image: Option<String>,
}

/// What linkding answers when asked whether a URL is bookmarked.
#[derive(Debug, Clone)]
pub struct LinkdingBookmarksApiCheckResponse {
    pub bookmark: Option<Bookmark>,
    pub metadata: LinkdingBookmarksApiCheckMetadata,
    pub auto_tags: Vec<String>,
}

/// The outcome of adding or updating a bookmark.
#[derive(Debug, Clone)]
pub struct BookmarkCheckDetailsResponse {
    pub bookmark: Option<Bookmark>,
    pub error: Option<String>,
    pub is_new: bool,
    pub successful: bool,
}

impl Default for BookmarkCheckDetailsResponse {
    fn default() -> (res: Self)
        ensures
            res.bookmark is None,
            res.error is None,
            !res.is_new,
            !res.successful,
    {
        BookmarkCheckDetailsResponse { bookmark: None, error: None, is_new: false, successful: false }
    }
}

/// The outcome of removing a bookmark.
#[derive(Debug, Clone)]
pub struct BookmarkRemoveResponse {
    pub error: Option<String>,
    pub successful: bool,
}

impl Default for BookmarkRemoveResponse {
    fn default() -> (res: Self)
        ensures
            res.error is None,
            !res.successful,
    {
        BookmarkRemoveResponse { error: None, successful: false }
    }
}

} // verus!
