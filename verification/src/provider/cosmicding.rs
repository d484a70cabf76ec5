//! The local provider: bookmarks kept only in the local database.
use vstd::prelude::*;

use crate::models::account::Account;
use crate::models::bookmarks::{
    Bookmark, BookmarkCheckDetailsResponse, BookmarkRemoveResponse, DetailedResponse,
};
use crate::text::{chars_of, string_of};
use crate::time::{iso_micros_form, now_iso_micros_text, now_unix_seconds};

verus! {

/// The version that local accounts report: the library's own.
pub open spec fn local_version() -> Seq<char> {
    "0.1.0"@
}

/// The version of the local provider.
pub fn get_provider_version() -> (res: String)
    ensures
        res@ == local_version(),
{
    string_of(&chars_of("0.1.0"))
}

/// The refresh of a local account at Unix time `now`: always successful,
/// and with nothing to merge, since no other copy of the bookmarks exists.
pub fn local_fetch_response(account: Account, now: i64) -> (res: DetailedResponse)
    ensures
        res.account == account,
        res.timestamp == now,
        res.successful,
        res.bookmarks matches Some(b) && b@.len() == 0,
{
    DetailedResponse::new(account, now, true, Some(Vec::new()))
}

/// The refresh of a local account, stamped with the current time.
pub fn fetch_bookmarks_for_account(account: Account) -> (res: DetailedResponse)
    ensures
        res.account == account,
        res.timestamp >= 0,
        res.successful,
        res.bookmarks matches Some(b) && b@.len() == 0,
{
    let now = now_unix_seconds();
    local_fetch_response(account, now)
}

/// The account whose stored bookmarks are searched for one with the same URL
/// before a bookmark is added: only when asked to, and only for an account
/// that is stored itself.
pub fn existing_lookup(account: &Account, check_for_existing: bool) -> (res: Option<i64>)
    ensures
        res == (if check_for_existing {
            account.id
        } else {
            None
        }),
{
    if check_for_existing {
        account.id
    } else {
        None
    }
}

/// What adding `bookmark` to a local account gives at the time `timestamp`
/// (a text such as `2025-01-31T12:00:00.000000Z`), given the stored bookmark
/// with the same URL, if one was found: the bookmark belongs to the account;
/// it is new unless it already has a local identifier or a stored one was
/// found, whose identifier and date of addition it then takes; a new
/// bookmark is added and modified at `timestamp`, another one only modified.
pub open spec fn local_populate_spec(
    account: Account,
    bookmark: Bookmark,
    existing: Option<Bookmark>,
    timestamp: String,
) -> BookmarkCheckDetailsResponse {
    let is_new = bookmark.id is None && existing is None;
    let base = match existing {
        Some(e) => Bookmark { id: e.id, date_added: e.date_added, ..bookmark },
        None => bookmark,
    };
    let stamped = if is_new {
        Bookmark {
            user_account_id: account.id,
            date_added: Some(timestamp),
            date_modified: Some(timestamp),
            ..base
        }
    } else {
        Bookmark { user_account_id: account.id, date_modified: Some(timestamp), ..base }
    };
    BookmarkCheckDetailsResponse { bookmark: Some(stamped), error: None, is_new, successful: true }
}

/// Adding to a local account always succeeds with the bookmark, now the
/// account's and modified at `timestamp`. It is new exactly when it has no
/// local identifier and no stored bookmark has its URL; only a new bookmark
/// is added at `timestamp`: any other keeps its date of addition, the stored
/// bookmark's when one was found, else its own, and takes the identifier of
/// the stored one. Its other values are those given.
pub proof fn lemma_local_populate_dates(
    account: Account,
    bookmark: Bookmark,
    existing: Option<Bookmark>,
    timestamp: String,
)
    ensures
        ({
            let r = local_populate_spec(account, bookmark, existing, timestamp);
            &&& r.successful
            &&& r.error is None
            &&& r.is_new <==> (bookmark.id is None && existing is None)
            &&& r.bookmark is Some
            &&& r.bookmark->0.user_account_id == account.id
            &&& r.bookmark->0.date_modified == Some(timestamp)
            &&& r.is_new ==> r.bookmark->0.date_added == Some(timestamp)
            &&& !r.is_new ==> r.bookmark->0.date_added == match existing {
                Some(e) => e.date_added,
                None => bookmark.date_added,
            }
            &&& r.bookmark->0.id == match existing {
                Some(e) => e.id,
                None => bookmark.id,
            }
            &&& r.bookmark->0.url == bookmark.url
            &&& r.bookmark->0.title == bookmark.title
            &&& r.bookmark->0.description == bookmark.description
            &&& r.bookmark->0.notes == bookmark.notes
            &&& r.bookmark->0.tag_names == bookmark.tag_names
            &&& r.bookmark->0.linkding_internal_id == bookmark.linkding_internal_id
        }),
{
}

/// Adds or updates a bookmark of a local account at the time `timestamp`.
pub fn populate_bookmark_at(
    account: &Account,
    bookmark: Bookmark,
    existing: Option<Bookmark>,
    timestamp: String,
) -> (res: BookmarkCheckDetailsResponse)
    ensures
        res == local_populate_spec(*account, bookmark, existing, timestamp),
{
    let mut bookmark = bookmark;
    bookmark.user_account_id = account.id;
    let mut is_new = bookmark.id.is_none();
    match existing {
        Some(e) => {
            is_new = false;
            bookmark.id = e.id;
            bookmark.date_added = e.date_added;
        },
        None => {},
    }
    if is_new {
        bookmark.date_added = Some(timestamp.clone());
        bookmark.date_modified = Some(timestamp);
    } else {
        bookmark.date_modified = Some(timestamp);
    }
    BookmarkCheckDetailsResponse { bookmark: Some(bookmark), error: None, is_new, successful: true }
}

/// Adds or updates a bookmark of a local account now: the time stamp is the
/// current UTC time written as `%Y-%m-%dT%H:%M:%S%.6fZ`.
pub fn populate_bookmark(account: &Account, bookmark: Bookmark, existing: Option<Bookmark>) -> (res:
    BookmarkCheckDetailsResponse)
    ensures
        exists|t: String|
            iso_micros_form(t@) && res == local_populate_spec(*account, bookmark, existing, t),
{
    let timestamp = now_iso_micros_text();
    populate_bookmark_at(account, bookmark, existing, timestamp)
}

/// Removing a bookmark of a local account needs nothing from a remote side
/// and always succeeds.
pub fn remove_bookmark() -> (res: BookmarkRemoveResponse)
    ensures
        res.successful,
        res.error is None,
{
    BookmarkRemoveResponse { error: None, successful: true }
}

} // verus!
