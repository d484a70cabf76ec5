//! The linkding REST API: the addresses the library calls, and what it makes
//! of the replies. Sending the requests is the caller's part; every decision
//! about a reply is taken here.
use vstd::prelude::*;

use crate::escape::flat_map_chars;
use crate::models::account::{Account, LinkdingAccountApiResponse};
use crate::models::bookmarks::{
    Bookmark, BookmarkCheckDetailsResponse, BookmarkRemoveResponse, DetailedResponse,
    LinkdingBookmarksApiCheckMetadata, LinkdingBookmarksApiCheckResponse,
};
use crate::numbers::{decimal_of, i64_to_decimal};
use crate::utils::json::{json_round_trip, json_round_trip_spec};
use crate::text::{append_chars, chars_of, contains, contains_exec, string_of};
use crate::time::{parse_rfc2822_timestamp, rfc2822_unix_seconds};

verus! {

// ---------------------------------------------------------------------------
// percent-encoding
// ---------------------------------------------------------------------------

/// The UTF-8 bytes of a character.
pub open spec fn utf8_bytes(c: char) -> Seq<u8> {
    let u = c as u32 as int;
    if u < 0x80 {
        seq![u as u8]
    } else if u < 0x800 {
        seq![(0xC0 + u / 64) as u8, (0x80 + u % 64) as u8]
    } else if u < 0x10000 {
        seq![(0xE0 + u / 4096) as u8, (0x80 + (u / 64) % 64) as u8, (0x80 + u % 64) as u8]
    } else {
        seq![
            (0xF0 + u / 262144) as u8,
            (0x80 + (u / 4096) % 64) as u8,
            (0x80 + (u / 64) % 64) as u8,
            (0x80 + u % 64) as u8,
        ]
    }
}

/// The upper-case hexadecimal digit of `d < 16`.
pub open spec fn upper_hex_digit(d: int) -> char {
    if d < 10 {
        ((d + '0' as int) as u32) as char
    } else {
        ((d - 10 + 'A' as int) as u32) as char
    }
}

/// Whether a byte passes percent-encoding unchanged: ASCII letters and
/// digits, `-`, `.`, `_` and `~`.
pub open spec fn url_safe_byte(b: u8) -> bool {
    (0x30 <= b && b <= 0x39) || (0x41 <= b && b <= 0x5A) || (0x61 <= b && b <= 0x7A) || b == 0x2D
        || b == 0x2E || b == 0x5F || b == 0x7E
}

/// One byte percent-encoded: itself when safe, else `%` and two upper-case
/// hexadecimal digits.
pub open spec fn percent_byte(b: u8) -> Seq<char> {
    if url_safe_byte(b) {
        seq![(b as u32) as char]
    } else {
        seq!['%', upper_hex_digit(b as int / 16), upper_hex_digit(b as int % 16)]
    }
}

/// One character percent-encoded: each of its UTF-8 bytes in turn.
pub open spec fn percent_char(c: char) -> Seq<char> {
    let bytes = utf8_bytes(c);
    if bytes.len() == 1 {
        percent_byte(bytes[0])
    } else if bytes.len() == 2 {
        percent_byte(bytes[0]) + percent_byte(bytes[1])
    } else if bytes.len() == 3 {
        percent_byte(bytes[0]) + percent_byte(bytes[1]) + percent_byte(bytes[2])
    } else {
        percent_byte(bytes[0]) + percent_byte(bytes[1]) + percent_byte(bytes[2]) + percent_byte(
            bytes[3],
        )
    }
}

/// A text percent-encoded for a query parameter.
pub open spec fn url_encoded(s: Seq<char>) -> Seq<char> {
    flat_map_chars(s, |c: char| percent_char(c))
}

/// Calls `urlencoding::encode`, which percent-encodes every UTF-8 byte of
/// the text except ASCII letters, digits, `-`, `.`, `_` and `~`, with
/// upper-case hexadecimal digits; the contract states exactly that.
#[verifier::external_body]
fn url_encode(s: &str) -> (res: String)
    ensures
        res@ == url_encoded(s@),
{
    urlencoding::encode(s).into_owned()
}

// ---------------------------------------------------------------------------
// addresses and authorization
// ---------------------------------------------------------------------------

fn cat(parts: &[&str]) -> (res: String)
    ensures
        res@ == join_all(parts@.map_values(|p: &str| p@)),
{
    let mut out: Vec<char> = Vec::new();
    let mut i: usize = 0;
    while i < parts.len()
        invariant
            i <= parts.len(),
            out@ == join_all(parts@.map_values(|p: &str| p@).take(i as int)),
        decreases parts.len() - i,
    {
        let piece = chars_of(parts[i]);
        append_chars(&mut out, &piece);
        proof {
            let all = parts@.map_values(|p: &str| p@);
            assert(all.take(i + 1).drop_last() =~= all.take(i as int));
        }
        i += 1;
    }
    proof {
        let all = parts@.map_values(|p: &str| p@);
        assert(all.take(parts.len() as int) =~= all);
    }
    string_of(&out)
}

/// The concatenation of texts.
pub open spec fn join_all(parts: Seq<Seq<char>>) -> Seq<char>
    decreases parts.len(),
{
    if parts.len() == 0 {
        seq![]
    } else {
        join_all(parts.drop_last()) + parts.last()
    }
}

/// The list of an account's own bookmarks.
pub open spec fn bookmarks_endpoint(instance: Seq<char>) -> Seq<char> {
    instance + "/api/bookmarks/"@
}

/// The list of an account's archived bookmarks.
pub open spec fn archived_bookmarks_endpoint(instance: Seq<char>) -> Seq<char> {
    instance + "/api/bookmarks/archived/"@
}

/// The list of bookmarks that others share with the account.
pub open spec fn shared_bookmarks_endpoint(instance: Seq<char>) -> Seq<char> {
    instance + "/api/bookmarks/shared/"@
}

/// One bookmark on the instance.
pub open spec fn bookmark_endpoint(instance: Seq<char>, id: i64) -> Seq<char> {
    instance + "/api/bookmarks/"@ + decimal_of(id as int) + "/"@
}

/// The profile of the account's user.
pub open spec fn profile_endpoint(instance: Seq<char>) -> Seq<char> {
    instance + "/api/user/profile/"@
}

/// The check whether a URL is already bookmarked, optionally without
/// scraping the page for metadata.
pub open spec fn check_endpoint(instance: Seq<char>, url: Seq<char>, disable_scraping: bool) -> Seq<
    char,
> {
    let base = instance + "/api/bookmarks/check/?url="@ + url_encoded(url);
    if disable_scraping {
        base + "&disable_scraping=true"@
    } else {
        base
    }
}

/// The value of the `Authorization` header for an API token.
pub open spec fn authorization_value(token: Seq<char>) -> Seq<char> {
    "Token "@ + token
}

/// The address of the account's own bookmarks.
pub fn bookmarks_url(account: &Account) -> (res: String)
    ensures
        res@ == bookmarks_endpoint(account.instance@),
{
    let parts = [account.instance.as_str(), "/api/bookmarks/"];
    let res = cat(&parts);
    proof {
        reveal_with_fuel(join_all, 3);
        assert(parts@.map_values(|p: &str| p@) =~= seq![account.instance@, "/api/bookmarks/"@]);
    }
    res
}

/// The address of the account's archived bookmarks.
pub fn archived_bookmarks_url(account: &Account) -> (res: String)
    ensures
        res@ == archived_bookmarks_endpoint(account.instance@),
{
    let parts = [account.instance.as_str(), "/api/bookmarks/archived/"];
    let res = cat(&parts);
    proof {
        reveal_with_fuel(join_all, 3);
        assert(parts@.map_values(|p: &str| p@) =~= seq![
            account.instance@,
            "/api/bookmarks/archived/"@,
        ]);
    }
    res
}

/// The address of the bookmarks shared with the account.
pub fn shared_bookmarks_url(account: &Account) -> (res: String)
    ensures
        res@ == shared_bookmarks_endpoint(account.instance@),
{
    let parts = [account.instance.as_str(), "/api/bookmarks/shared/"];
    let res = cat(&parts);
    proof {
        reveal_with_fuel(join_all, 3);
        assert(parts@.map_values(|p: &str| p@) =~= seq![
            account.instance@,
            "/api/bookmarks/shared/"@,
        ]);
    }
    res
}

/// The address of a bookmark on the instance, by its identifier there.
pub fn bookmark_url(account: &Account, id: i64) -> (res: String)
    ensures
        res@ == bookmark_endpoint(account.instance@, id),
{
    let digits = string_of(&i64_to_decimal(id));
    let parts = [account.instance.as_str(), "/api/bookmarks/", digits.as_str(), "/"];
    let res = cat(&parts);
    proof {
        reveal_with_fuel(join_all, 5);
        assert(parts@.map_values(|p: &str| p@) =~= seq![
            account.instance@,
            "/api/bookmarks/"@,
            decimal_of(id as int),
            "/"@,
        ]);
    }
    res
}

/// The address of the profile of the account's user.
pub fn profile_url(account: &Account) -> (res: String)
    ensures
        res@ == profile_endpoint(account.instance@),
{
    let parts = [account.instance.as_str(), "/api/user/profile/"];
    let res = cat(&parts);
    proof {
        reveal_with_fuel(join_all, 3);
        assert(parts@.map_values(|p: &str| p@) =~= seq![account.instance@, "/api/user/profile/"@]);
    }
    res
}

/// The address that checks whether `url` is bookmarked on the account's
/// instance; the URL travels percent-encoded.
pub fn check_url(account: &Account, url: &str, disable_scraping: bool) -> (res: String)
    ensures
        res@ == check_endpoint(account.instance@, url@, disable_scraping),
{
    let encoded = url_encode(url);
    if disable_scraping {
        let parts = [
            account.instance.as_str(),
            "/api/bookmarks/check/?url=",
            encoded.as_str(),
            "&disable_scraping=true",
        ];
        let res = cat(&parts);
        proof {
            reveal_with_fuel(join_all, 5);
            assert(parts@.map_values(|p: &str| p@) =~= seq![
                account.instance@,
                "/api/bookmarks/check/?url="@,
                url_encoded(url@),
                "&disable_scraping=true"@,
            ]);
        }
        res
    } else {
        let parts = [account.instance.as_str(), "/api/bookmarks/check/?url=", encoded.as_str()];
        let res = cat(&parts);
        proof {
            reveal_with_fuel(join_all, 4);
            assert(parts@.map_values(|p: &str| p@) =~= seq![
                account.instance@,
                "/api/bookmarks/check/?url="@,
                url_encoded(url@),
            ]);
        }
        res
    }
}

/// The `Authorization` header value for the account's API token.
pub fn authorization(account: &Account) -> (res: String)
    ensures
        res@ == authorization_value(account.api_token@),
{
    let parts = ["Token ", account.api_token.as_str()];
    let res = cat(&parts);
    proof {
        reveal_with_fuel(join_all, 3);
        assert(parts@.map_values(|p: &str| p@) =~= seq!["Token "@, account.api_token@]);
    }
    res
}

// ---------------------------------------------------------------------------
// messages
// ---------------------------------------------------------------------------

/// A reply body that does not read as what was asked for.
pub open spec fn failed_to_parse_message() -> Seq<char> {
    "Failed to parse response"@
}

/// An HTTP status other than the expected one, with the reply body.
pub open spec fn http_error_message(status: Seq<char>, body: Seq<char>) -> Seq<char> {
    "HTTP error "@ + status + ": "@ + body
}

/// A reply that is not a linkding API answer.
pub open spec fn endpoint_not_found_message() -> Seq<char> {
    "Failed to find linkding API endpoint"@
}

/// A refused API token.
pub open spec fn invalid_token_message() -> Seq<char> {
    "Invalid API token"@
}

/// A status that the API does not give for the request.
pub open spec fn unexpected_status_message(status: Seq<char>) -> Seq<char> {
    "Unexpected HTTP return code "@ + status
}

/// An instance address that no request can be built for.
pub open spec fn invalid_url_message() -> Seq<char> {
    "Provided URL is not valid"@
}

/// A request that could not be sent, with the transport's own words.
pub open spec fn request_failed_message(error: Seq<char>) -> Seq<char> {
    "Request failed: "@ + error
}

fn text(s: &str) -> (res: String)
    ensures
        res@ == s@,
{
    string_of(&chars_of(s))
}

fn http_error(reply: &HttpReply) -> (res: String)
    ensures
        res@ == http_error_message(reply.status_text@, reply.body@),
{
    let parts = ["HTTP error ", reply.status_text.as_str(), ": ", reply.body.as_str()];
    let res = cat(&parts);
    proof {
        reveal_with_fuel(join_all, 5);
        assert(parts@.map_values(|p: &str| p@) =~= seq![
            "HTTP error "@,
            reply.status_text@,
            ": "@,
            reply.body@,
        ]);
    }
    res
}

// ---------------------------------------------------------------------------
// replies
// ---------------------------------------------------------------------------

/// An HTTP reply as the library reads it: the status code, the status as
/// text (`201 Created`), and the body as text.
#[derive(Debug, Clone)]
pub struct HttpReply {
    pub status: u16,
    pub status_text: String,
    pub body: String,
}

/// What the profile request answers: the profile on `200 OK` when its body
/// reads as one (`parsed`), else the reason.
pub open spec fn profile_reply_spec(
    reply: HttpReply,
    parsed: Option<LinkdingAccountApiResponse>,
    res: Result<LinkdingAccountApiResponse, String>,
) -> bool {
    if reply.status == 200 {
        match parsed {
            Some(p) => res == Ok::<LinkdingAccountApiResponse, String>(p),
            None => res matches Err(e) && e@ == endpoint_not_found_message(),
        }
    } else if reply.status == 401 {
        res matches Err(e) && e@ == invalid_token_message()
    } else {
        res matches Err(e) && e@ == unexpected_status_message(reply.status_text@)
    }
}

/// Reads the reply to the profile request (`check_account_on_instance`).
pub fn check_account_reply(reply: &HttpReply, parsed: Option<LinkdingAccountApiResponse>) -> (res:
    Result<LinkdingAccountApiResponse, String>)
    ensures
        profile_reply_spec(*reply, parsed, res),
{
    if reply.status == 200 {
        match parsed {
            Some(p) => Ok(p),
            None => Err(text("Failed to find linkding API endpoint")),
        }
    } else if reply.status == 401 {
        Err(text("Invalid API token"))
    } else {
        let parts = ["Unexpected HTTP return code ", reply.status_text.as_str()];
        let msg = cat(&parts);
        proof {
            reveal_with_fuel(join_all, 3);
            assert(parts@.map_values(|p: &str| p@) =~= seq![
                "Unexpected HTTP return code "@,
                reply.status_text@,
            ]);
        }
        Err(msg)
    }
}

/// What the check request answers, in the same way as the profile request.
pub open spec fn check_reply_spec(
    reply: HttpReply,
    parsed: Option<LinkdingBookmarksApiCheckResponse>,
    res: Result<LinkdingBookmarksApiCheckResponse, String>,
) -> bool {
    if reply.status == 200 {
        match parsed {
            Some(p) => res == Ok::<LinkdingBookmarksApiCheckResponse, String>(p),
            None => res matches Err(e) && e@ == endpoint_not_found_message(),
        }
    } else if reply.status == 401 {
        res matches Err(e) && e@ == invalid_token_message()
    } else {
        res matches Err(e) && e@ == unexpected_status_message(reply.status_text@)
    }
}

/// Reads the reply to the request that checks a URL
/// (`check_bookmark_on_instance`).
pub fn check_bookmark_reply(
    reply: &HttpReply,
    parsed: Option<LinkdingBookmarksApiCheckResponse>,
) -> (res: Result<LinkdingBookmarksApiCheckResponse, String>)
    ensures
        check_reply_spec(*reply, parsed, res),
{
    if reply.status == 200 {
        match parsed {
            Some(p) => Ok(p),
            None => Err(text("Failed to find linkding API endpoint")),
        }
    } else if reply.status == 401 {
        Err(text("Invalid API token"))
    } else {
        let parts = ["Unexpected HTTP return code ", reply.status_text.as_str()];
        let msg = cat(&parts);
        proof {
            reveal_with_fuel(join_all, 3);
            assert(parts@.map_values(|p: &str| p@) =~= seq![
                "Unexpected HTTP return code "@,
                reply.status_text@,
            ]);
        }
        Err(msg)
    }
}

/// The account details kept after the profile request: the profile marked
/// successful, or an empty profile marked failed with the reason; a reason
/// that speaks of a `builder error` means the instance address was no URL.
pub open spec fn account_details_spec(
    result: Result<LinkdingAccountApiResponse, String>,
    res: LinkdingAccountApiResponse,
) -> bool {
    match result {
        Ok(p) => res == (LinkdingAccountApiResponse { successful: Some(true), ..p }),
        Err(e) => {
            &&& res.successful == Some(false)
            &&& res.error matches Some(m) && m@ == (if contains(e@, "builder error"@) {
                invalid_url_message()
            } else {
                e@
            })
            &&& res.version is None
            &&& !res.enable_sharing
            &&& !res.enable_public_sharing
        },
    }
}

/// Records the outcome of the profile request (`fetch_account_details`).
pub fn account_details(result: Result<LinkdingAccountApiResponse, String>) -> (res:
    LinkdingAccountApiResponse)
    ensures
        account_details_spec(result, res),
{
    match result {
        Ok(p) => LinkdingAccountApiResponse { successful: Some(true), ..p },
        Err(e) => {
            let mut details = LinkdingAccountApiResponse::default();
            details.successful = Some(false);
            let ev = chars_of(e.as_str());
            let needle = chars_of("builder error");
            if contains_exec(&ev, &needle) {
                details.error = Some(text("Provided URL is not valid"));
            } else {
                details.error = Some(e);
            }
            details
        },
    }
}

/// The outcome of removing a bookmark: done on `204 No Content`, else an
/// HTTP error with the reply body.
pub fn remove_bookmark_reply(reply: &HttpReply) -> (res: BookmarkRemoveResponse)
    ensures
        reply.status == 204 ==> res.successful && res.error is None,
        reply.status != 204 ==> (!res.successful && (res.error matches Some(m) && m@
            == http_error_message(reply.status_text@, reply.body@))),
{
    let mut response = BookmarkRemoveResponse::default();
    if reply.status == 204 {
        response.successful = true;
    } else {
        response.error = Some(http_error(reply));
    }
    response
}

/// A bookmark as the instance returned it, made the account's own: the
/// instance's identifier moves to `linkding_internal_id`, the bookmark is
/// tied to the account and has no local identifier yet.
pub open spec fn adopt_spec(account: Account, b: Bookmark) -> Bookmark {
    Bookmark { linkding_internal_id: b.id, user_account_id: account.id, id: None, ..b }
}

/// The outcome of editing a bookmark: on `200 OK` the returned bookmark,
/// adopted and marked as owned, when the body reads as one; else the reason.
pub fn edit_bookmark_reply(account: &Account, reply: &HttpReply, parsed: Option<Bookmark>) -> (res:
    Result<Bookmark, String>)
    ensures
        reply.status == 200 && parsed is Some ==> res == Ok::<Bookmark, String>(
            Bookmark { is_owner: Some(true), ..adopt_spec(*account, parsed->0) },
        ),
        reply.status == 200 && parsed is None ==> (res matches Err(e) && e@
            == failed_to_parse_message()),
        reply.status != 200 ==> (res matches Err(e) && e@ == http_error_message(
            reply.status_text@,
            reply.body@,
        )),
{
    if reply.status == 200 {
        match parsed {
            Some(value) => {
                let adopted = Bookmark {
                    linkding_internal_id: value.id,
                    user_account_id: account.id,
                    id: None,
                    is_owner: Some(true),
                    ..value
                };
                Ok(adopted)
            },
            None => Err(text("Failed to parse response")),
        }
    } else {
        Err(http_error(reply))
    }
}

/// The fields of a bookmark that are sent when it is created or edited: the
/// ones the user edits. Identifiers, website metadata, favicon, preview,
/// dates and ownership stay out of the request.
#[derive(Debug, Clone)]
pub struct BookmarkPayload {
    pub url: String,
    pub title: String,
    pub description: String,
    pub notes: String,
    pub is_archived: bool,
    pub unread: bool,
    pub shared: bool,
    pub tag_names: Vec<String>,
}

/// The request body for a bookmark.
pub fn request_payload(bookmark: &Bookmark) -> (res: BookmarkPayload)
    ensures
        res.url == bookmark.url,
        res.title == bookmark.title,
        res.description == bookmark.description,
        res.notes == bookmark.notes,
        res.is_archived == bookmark.is_archived,
        res.unread == bookmark.unread,
        res.shared == bookmark.shared,
        res.tag_names@ == bookmark.tag_names@,
{
    BookmarkPayload {
        url: bookmark.url.clone(),
        title: bookmark.title.clone(),
        description: bookmark.description.clone(),
        notes: bookmark.notes.clone(),
        is_archived: bookmark.is_archived,
        unread: bookmark.unread,
        shared: bookmark.shared,
        tag_names: bookmark.tag_names.clone(),
    }
}

// ---------------------------------------------------------------------------
// reading the bookmark lists of an account
// ---------------------------------------------------------------------------

/// A text, or the empty text when there is none.
pub open spec fn text_or_empty(o: Option<String>) -> Seq<char> {
    match o {
        Some(t) => t@,
        None => seq![],
    }
}

fn or_empty(o: Option<String>) -> (res: String)
    ensures
        res@ == text_or_empty(o),
{
    match o {
        Some(t) => t,
        None => String::new(),
    }
}

/// `res` is the bookmark `b` of a linkding list as the library keeps it for
/// the account `account_id`: the instance's identifier becomes
/// `linkding_internal_id`, missing website texts, favicon and preview become
/// empty texts, and ownership is recorded as `owner`.
pub open spec fn from_api(res: Bookmark, account_id: Option<i64>, b: Bookmark, owner: bool) -> bool {
    &&& res.id is None
    &&& res.user_account_id == account_id
    &&& res.linkding_internal_id == b.id
    &&& res.url == b.url
    &&& res.title == b.title
    &&& res.description == b.description
    &&& (res.website_title matches Some(t) && t@ == text_or_empty(b.website_title))
    &&& (res.website_description matches Some(t) && t@ == text_or_empty(b.website_description))
    &&& res.notes == b.notes
    &&& res.web_archive_snapshot_url == b.web_archive_snapshot_url
    &&& (res.favicon_url matches Some(t) && t@ == text_or_empty(b.favicon_url))
    &&& (res.preview_image_url matches Some(t) && t@ == text_or_empty(b.preview_image_url))
    &&& res.is_archived == b.is_archived
    &&& res.unread == b.unread
    &&& res.shared == b.shared
    &&& res.tag_names == b.tag_names
    &&& res.date_added == b.date_added
    &&& res.date_modified == b.date_modified
    &&& res.is_owner == Some(owner)
    &&& res.favicon_cached is None
}

/// Turns a bookmark of a linkding list into the library's bookmark.
pub fn bookmark_from_api(account_id: Option<i64>, b: Bookmark, owner: bool) -> (res: Bookmark)
    ensures
        from_api(res, account_id, b, owner),
{
    Bookmark::new(
        account_id,
        b.id,
        b.url,
        b.title,
        b.description,
        or_empty(b.website_title),
        or_empty(b.website_description),
        b.notes,
        b.web_archive_snapshot_url,
        or_empty(b.favicon_url),
        or_empty(b.preview_image_url),
        b.is_archived,
        b.unread,
        b.shared,
        b.tag_names,
        b.date_added,
        b.date_modified,
        Some(owner),
    )
}

/// The instance identifiers of a list of bookmarks as the library keeps them.
pub open spec fn internal_ids(bs: Seq<Bookmark>) -> Seq<Option<i64>> {
    bs.map_values(|b: Bookmark| b.linkding_internal_id)
}

/// The instance identifiers of a list of bookmarks as linkding sends them.
pub open spec fn api_ids(bs: Seq<Bookmark>) -> Seq<Option<i64>> {
    bs.map_values(|b: Bookmark| b.id)
}

/// The shared bookmarks that are kept after the identifiers `prior`: a
/// shared bookmark is dropped when its identifier is among `prior` or among
/// the shared bookmarks kept before it.
pub open spec fn kept_shared(prior: Seq<Option<i64>>, src: Seq<Bookmark>) -> Seq<Bookmark>
    decreases src.len(),
{
    if src.len() == 0 {
        seq![]
    } else {
        let k = kept_shared(prior, src.drop_last());
        if (prior + api_ids(k)).contains(src.last().id) {
            k
        } else {
            k.push(src.last())
        }
    }
}

/// The entries `from .. from + src.len()` of `res` are the bookmarks of
/// `src` as the library keeps them.
pub open spec fn converted_at(
    res: Seq<Bookmark>,
    from: int,
    account_id: Option<i64>,
    src: Seq<Bookmark>,
    owner: bool,
) -> bool {
    &&& 0 <= from
    &&& from + src.len() == res.len()
    &&& forall|i: int|
        0 <= i < src.len() ==> #[trigger] from_api(res[from + i], account_id, src[i], owner)
}

/// Which of an account's lists a reply belongs to.
#[derive(Debug, Clone, Copy, PartialEq, Eq, Structural)]
pub enum BookmarkList {
    /// The account's own bookmarks.
    Owned,
    /// The account's archived bookmarks.
    Archived,
    /// The bookmarks that others share with the account.
    Shared,
}

/// What the caller learned from the request for one list: whether the
/// status was a success, the reply's `Date` header (the current time in the
/// same form where the reply had none), and the list when the body read as
/// one.
#[derive(Debug, Clone)]
pub struct ListReply {
    pub successful: bool,
    pub date: String,
    pub results: Option<Vec<Bookmark>>,
}

/// Whether a reply's date is usable: read as RFC 2822 and not before 1970.
pub open spec fn reply_time(reply: ListReply) -> Option<i64> {
    match rfc2822_unix_seconds(reply.date@) {
        Some(t) => if t >= 0 {
            Some(t)
        } else {
            None
        },
        None => None,
    }
}

/// Whether the fetch ends in an error at this reply: a successful reply
/// whose date cannot be used.
pub open spec fn reply_fails(reply: ListReply) -> bool {
    reply.successful && reply_time(reply) is None
}

/// A refresh of one account's bookmarks from its three lists, read in the
/// order own, archived, shared. The response collects the outcome; the
/// bookmarks collect the lists.
#[derive(Debug, Clone)]
pub struct BookmarkFetch {
    pub response: DetailedResponse,
    pub bookmarks: Vec<Bookmark>,
}

impl BookmarkFetch {
    /// A refresh that has read nothing yet: not successful, at time zero,
    /// with no bookmarks.
    pub fn new(account: Account) -> (res: Self)
        ensures
            res.response.account == account,
            res.response.timestamp == 0,
            !res.response.successful,
            res.response.bookmarks is None,
            res.bookmarks@.len() == 0,
    {
        BookmarkFetch {
            response: DetailedResponse::new(account, 0, false, None),
            bookmarks: Vec::new(),
        }
    }

    fn append_converted(&mut self, account_id: Option<i64>, list: Vec<Bookmark>, owner: bool)
        ensures
            final(self).response == old(self).response,
            final(self).bookmarks@.take(old(self).bookmarks@.len() as int) == old(self).bookmarks@,
            converted_at(
                final(self).bookmarks@,
                old(self).bookmarks@.len() as int,
                account_id,
                list@,
                owner,
            ),
    {
        let ghost start = self.bookmarks@.len() as int;
        let ghost before = self.bookmarks@;
        let mut list = list;
        let ghost src = list@;
        let mut k: usize = 0;
        let n = list.len();
        while k < n
            invariant
                n == src.len(),
                list@.len() == n - k,
                list@ == src.skip(k as int),
                self.response == old(self).response,
                self.bookmarks@.len() == start + k,
                self.bookmarks@.take(start) == before,
                start == before.len(),
                forall|i: int|
                    0 <= i < k ==> #[trigger] from_api(
                        self.bookmarks@[start + i],
                        account_id,
                        src[i],
                        owner,
                    ),
            decreases n - k,
        {
            let b = list.remove(0);
            assert(b == src[k as int]);
            assert(list@ =~= src.skip(k + 1));
            let converted = bookmark_from_api(account_id, b, owner);
            self.bookmarks.push(converted);
            proof {
                assert(self.bookmarks@.take(start) =~= before);
            }
            k += 1;
        }
    }

    fn holds_id(&self, id: Option<i64>) -> (res: bool)
        ensures
            res == internal_ids(self.bookmarks@).contains(id),
    {
        let mut i: usize = 0;
        while i < self.bookmarks.len()
            invariant
                i <= self.bookmarks@.len(),
                forall|j: int| 0 <= j < i ==> self.bookmarks@[j].linkding_internal_id != id,
            decreases self.bookmarks.len() - i,
        {
            let same = match (self.bookmarks[i].linkding_internal_id, id) {
                (Some(a), Some(b)) => a == b,
                (None, None) => true,
                _ => false,
            };
            if same {
                assert(internal_ids(self.bookmarks@)[i as int] == id);
                return true;
            }
            i += 1;
        }
        proof {
            if internal_ids(self.bookmarks@).contains(id) {
                let j = choose|j: int|
                    0 <= j < internal_ids(self.bookmarks@).len() && internal_ids(self.bookmarks@)[j]
                        == id;
                assert(self.bookmarks@[j].linkding_internal_id == id);
            }
        }
        false
    }

    fn append_shared(&mut self, account_id: Option<i64>, list: Vec<Bookmark>)
        ensures
            final(self).response == old(self).response,
            final(self).bookmarks@.take(old(self).bookmarks@.len() as int) == old(self).bookmarks@,
            converted_at(
                final(self).bookmarks@,
                old(self).bookmarks@.len() as int,
                account_id,
                kept_shared(internal_ids(old(self).bookmarks@), list@),
                false,
            ),
    {
        let ghost start = self.bookmarks@.len() as int;
        let ghost before = self.bookmarks@;
        let ghost prior = internal_ids(before);
        let mut list = list;
        let ghost src = list@;
        let mut k: usize = 0;
        let n = list.len();
        while k < n
            invariant
                n == src.len(),
                list@.len() == n - k,
                list@ == src.skip(k as int),
                self.response == old(self).response,
                self.bookmarks@.take(start) == before,
                start == before.len(),
                prior == internal_ids(before),
                converted_at(
                    self.bookmarks@,
                    start,
                    account_id,
                    kept_shared(prior, src.take(k as int)),
                    false,
                ),
                internal_ids(self.bookmarks@) == prior + api_ids(
                    kept_shared(prior, src.take(k as int)),
                ),
            decreases n - k,
        {
            let b = list.remove(0);
            assert(b == src[k as int]);
            assert(list@ =~= src.skip(k + 1));
            let ghost kept_before = kept_shared(prior, src.take(k as int));
            proof {
                assert(src.take(k + 1).drop_last() =~= src.take(k as int));
                assert(src.take(k + 1).last() == b);
            }
            let converted = bookmark_from_api(account_id, b, false);
            if !self.holds_id(converted.linkding_internal_id) {
                let ghost old_books = self.bookmarks@;
                self.bookmarks.push(converted);
                proof {
                    assert(self.bookmarks@.take(start) =~= before);
                    let kept_now = kept_shared(prior, src.take(k + 1));
                    assert(kept_now == kept_before.push(b));
                    assert(internal_ids(self.bookmarks@) =~= internal_ids(old_books).push(
                        b.id,
                    ));
                    assert(api_ids(kept_now) =~= api_ids(kept_before).push(b.id));
                    assert(internal_ids(self.bookmarks@) =~= prior + api_ids(kept_now));
                    assert forall|i: int| 0 <= i < kept_now.len() implies #[trigger] from_api(
                        self.bookmarks@[start + i],
                        account_id,
                        kept_now[i],
                        false,
                    ) by {
                        if i < kept_before.len() {
                            assert(from_api(old_books[start + i], account_id, kept_before[i], false));
                        }
                    }
                }
            } else {
                proof {
                    assert(kept_shared(prior, src.take(k + 1)) == kept_before);
                }
            }
            k += 1;
        }
        proof {
            assert(src.take(n as int) =~= src);
        }
    }

    /// Takes the reply for one list. A failed status turns the refresh
    /// unsuccessful, except for the first list, whose failure changes
    /// nothing. A successful status makes the refresh successful at the
    /// reply's date and adds the list, if it was read: own and archived
    /// bookmarks as owned, shared ones as not owned and only when no bookmark
    /// collected so far has the same identifier. Answers false, changing
    /// nothing, when a successful reply's date cannot be used: the refresh
    /// then fails as a whole.
    pub fn absorb(&mut self, list: BookmarkList, reply: ListReply) -> (ok: bool)
        ensures
            ok == !reply_fails(reply),
            !ok ==> *final(self) == *old(self),
            ok && !reply.successful ==> {
                &&& final(self).bookmarks == old(self).bookmarks
                &&& final(self).response == (if list == BookmarkList::Owned {
                    old(self).response
                } else {
                    DetailedResponse { successful: false, ..old(self).response }
                })
            },
            ok && reply.successful ==> {
                &&& final(self).response == DetailedResponse {
                    successful: true,
                    timestamp: reply_time(reply)->0,
                    ..old(self).response
                }
                &&& final(self).bookmarks@.take(old(self).bookmarks@.len() as int)
                    == old(self).bookmarks@
                &&& match reply.results {
                    None => final(self).bookmarks@ == old(self).bookmarks@,
                    Some(src) => if list == BookmarkList::Shared {
                        converted_at(
                            final(self).bookmarks@,
                            old(self).bookmarks@.len() as int,
                            old(self).response.account.id,
                            kept_shared(internal_ids(old(self).bookmarks@), src@),
                            false,
                        )
                    } else {
                        converted_at(
                            final(self).bookmarks@,
                            old(self).bookmarks@.len() as int,
                            old(self).response.account.id,
                            src@,
                            true,
                        )
                    },
                }
            },
    {
        if !reply.successful {
            if list != BookmarkList::Owned {
                self.response.successful = false;
            }
            return true;
        }
        let time = match parse_rfc2822_timestamp(reply.date.as_str()) {
            Some(t) => if t >= 0 {
                t
            } else {
                return false;
            },
            None => {
                return false;
            },
        };
        self.response.successful = true;
        self.response.timestamp = time;
        let account_id = self.response.account.id;
        match reply.results {
            None => {
                assert(self.bookmarks@.take(self.bookmarks@.len() as int) =~= self.bookmarks@);
            },
            Some(src) => {
                if list == BookmarkList::Shared {
                    self.append_shared(account_id, src);
                } else {
                    self.append_converted(account_id, src, true);
                }
            },
        }
        true
    }

    /// The response of the refresh, holding the collected bookmarks.
    pub fn finish(self) -> (res: DetailedResponse)
        ensures
            res == (DetailedResponse { bookmarks: Some(self.bookmarks), ..self.response }),
    {
        DetailedResponse { bookmarks: Some(self.bookmarks), ..self.response }
    }
}

/// The shared bookmarks kept never repeat an identifier: each one's
/// identifier is held neither by a bookmark read before the shared list nor
/// by a shared bookmark kept before it.
pub proof fn lemma_kept_shared_fresh(prior: Seq<Option<i64>>, src: Seq<Bookmark>)
    ensures
        forall|j: int|
            0 <= j < kept_shared(prior, src).len() ==> !(prior + api_ids(
                kept_shared(prior, src).take(j),
            )).contains(#[trigger] kept_shared(prior, src)[j].id),
    decreases src.len(),
{
    if src.len() > 0 {
        lemma_kept_shared_fresh(prior, src.drop_last());
        let k = kept_shared(prior, src.drop_last());
        let kk = kept_shared(prior, src);
        assert forall|j: int| 0 <= j < kk.len() implies !(prior + api_ids(kk.take(j))).contains(
            #[trigger] kk[j].id,
        ) by {
            if j < k.len() {
                assert(kk.take(j) =~= k.take(j));
                assert(kk[j] == k[j]);
            } else {
                assert(kk.take(j) =~= k);
            }
        }
    }
}

// ---------------------------------------------------------------------------
// adding or updating a bookmark on the instance
// ---------------------------------------------------------------------------

/// How many times creating a bookmark is tried again after the instance
/// answered `503 Service Unavailable`.
pub const MAX_CREATE_RETRIES: u32 = 3;

/// Two to the power `n`.
pub open spec fn pow2(n: nat) -> nat
    decreases n,
{
    if n == 0 {
        1
    } else {
        2 * pow2((n - 1) as nat)
    }
}

/// The wait in milliseconds before retry number `n` (from one):
/// a second, doubled at each further retry.
pub open spec fn backoff_ms_spec(n: nat) -> nat {
    1000 * pow2((n - 1) as nat)
}

/// The text of a bookmark field after its trip through the request's JSON.
pub open spec fn sent_text(s: Seq<char>) -> Seq<char> {
    json_round_trip_spec(s)
}

/// The title kept for a bookmark found on the instance: the requested one
/// when it is not empty, else the title the instance scraped.
pub open spec fn found_title(requested: Bookmark, meta: LinkdingBookmarksApiCheckMetadata) -> Seq<
    char,
> {
    if sent_text(requested.title@).len() > 0 {
        sent_text(requested.title@)
    } else {
        meta.title->0@
    }
}

/// The description kept for a bookmark found on the instance: the requested
/// one when it is not empty, else the scraped one or nothing.
pub open spec fn found_description(
    requested: Bookmark,
    meta: LinkdingBookmarksApiCheckMetadata,
) -> Seq<char> {
    if sent_text(requested.description@).len() > 0 {
        sent_text(requested.description@)
    } else {
        text_or_empty(meta.description)
    }
}

/// `res` is the bookmark `found` on the instance, adopted for the account,
/// with the title, description, notes and tags of the request.
pub open spec fn found_merged(
    res: Bookmark,
    account: Account,
    requested: Bookmark,
    found: Bookmark,
    meta: LinkdingBookmarksApiCheckMetadata,
) -> bool {
    let a = adopt_spec(account, found);
    &&& res.id is None
    &&& res.user_account_id == account.id
    &&& res.linkding_internal_id == found.id
    &&& res.title@ == found_title(requested, meta)
    &&& res.description@ == found_description(requested, meta)
    &&& res.notes@ == sent_text(requested.notes@)
    &&& res.tag_names == requested.tag_names
    &&& res == Bookmark {
        title: res.title,
        description: res.description,
        notes: res.notes,
        tag_names: res.tag_names,
        ..a
    }
}

/// When the URL is already bookmarked on the instance, the edit that is sent
/// keeps what the user asked for: a non-empty requested title or
/// description (as it reads after its JSON trip) wins over whatever the
/// instance scraped, which only fills an empty one; the notes and tags are
/// the requested ones; the rest (the URL among it) is the stored bookmark's,
/// under its remote identifier and for the account.
pub proof fn lemma_found_keeps_requested(
    res: Bookmark,
    account: Account,
    requested: Bookmark,
    found: Bookmark,
    meta: LinkdingBookmarksApiCheckMetadata,
)
    requires
        found_merged(res, account, requested, found, meta),
    ensures
        sent_text(requested.description@).len() > 0 ==> res.description@ == sent_text(
            requested.description@,
        ),
        sent_text(requested.description@).len() == 0 ==> match meta.description {
            Some(d) => res.description@ == d@,
            None => res.description@.len() == 0,
        },
        sent_text(requested.title@).len() > 0 ==> res.title@ == sent_text(requested.title@),
        sent_text(requested.title@).len() == 0 ==> (meta.title matches Some(t) ==> res.title@
            == t@),
        res.notes@ == sent_text(requested.notes@),
        res.tag_names == requested.tag_names,
        res.url == found.url,
        res.linkding_internal_id == found.id,
        res.user_account_id == account.id,
        res.id is None,
{
}

/// What adding or updating a bookmark asks for next.
#[derive(Debug, Clone)]
pub enum PopulateStep {
    /// Ask the instance whether the URL is bookmarked.
    Check { url: String, disable_scraping: bool },
    /// Wait so many milliseconds, then create the bookmark from the payload
    /// of the requested bookmark.
    Create { backoff_ms: u64 },
    /// Send this bookmark as an edit of the one on the instance, and hand it
    /// back with the outcome.
    Edit(Bookmark),
    /// Finished: the outcome is the response.
    Done,
}

/// Adding a bookmark to a linkding account, or updating the one it already
/// holds for the URL (`populate_bookmark`). The requested bookmark is kept
/// while it is still to be sent.
#[derive(Debug, Clone)]
pub struct BookmarkPopulate {
    pub account: Account,
    pub requested: Option<Bookmark>,
    pub response: BookmarkCheckDetailsResponse,
    pub retry_count: u32,
    pub last_error: Option<String>,
}

impl BookmarkPopulate {
    /// Starts adding `bookmark`. When asked to look for an existing bookmark,
    /// the first step checks the URL as it reads after its trip through the
    /// request's JSON; otherwise the bookmark is sent as an edit right away.
    pub fn start(
        account: Account,
        bookmark: Bookmark,
        check_for_existing: bool,
        disable_scraping: bool,
    ) -> (res: (BookmarkPopulate, PopulateStep))
        ensures
            res.0.account == account,
            res.0.retry_count == 0,
            res.0.last_error is None,
            res.0.response.bookmark is None,
            res.0.response.error is None,
            !res.0.response.is_new,
            !res.0.response.successful,
            check_for_existing ==> {
                &&& res.0.requested == Some(bookmark)
                &&& res.1 matches PopulateStep::Check { url, disable_scraping: d }
                &&& url@ == sent_text(bookmark.url@)
                &&& d == disable_scraping
            },
            !check_for_existing ==> res.0.requested is None && res.1 == PopulateStep::Edit(
                bookmark,
            ),
    {
        if check_for_existing {
            let url = json_round_trip(bookmark.url.as_str());
            let state = BookmarkPopulate {
                account,
                requested: Some(bookmark),
                response: BookmarkCheckDetailsResponse::default(),
                retry_count: 0,
                last_error: None,
            };
            (state, PopulateStep::Check { url, disable_scraping })
        } else {
            let state = BookmarkPopulate {
                account,
                requested: None,
                response: BookmarkCheckDetailsResponse::default(),
                retry_count: 0,
                last_error: None,
            };
            (state, PopulateStep::Edit(bookmark))
        }
    }

    /// Takes the answer to the check. A bookmark found on the instance is
    /// adopted with the requested title, description, notes and tags and sent
    /// as an edit; no bookmark found means a new one is created; a failed
    /// check ends with an error.
    pub fn on_check(&mut self, result: Result<LinkdingBookmarksApiCheckResponse, String>) -> (step:
        PopulateStep)
        requires
            old(self).requested is Some,
            !old(self).response.is_new,
            old(self).response.bookmark is None,
            (result matches Ok(c) && c.bookmark is Some && sent_text(
                old(self).requested->0.title@,
            ).len() == 0) ==> result->Ok_0.metadata.title is Some,
        ensures
            final(self).account == old(self).account,
            final(self).retry_count == old(self).retry_count,
            final(self).last_error == old(self).last_error,
            final(self).response.successful == old(self).response.successful,
            match result {
                Ok(c) => match c.bookmark {
                    Some(found) => {
                        &&& step matches PopulateStep::Edit(b) && found_merged(
                            b,
                            old(self).account,
                            old(self).requested->0,
                            found,
                            c.metadata,
                        )
                        &&& final(self).requested is None
                        &&& final(self).response == old(self).response
                    },
                    None => {
                        &&& step == (PopulateStep::Create { backoff_ms: 0 })
                        &&& final(self).requested == old(self).requested
                        &&& final(self).response == BookmarkCheckDetailsResponse {
                            is_new: true,
                            ..old(self).response
                        }
                    },
                },
                Err(_) => {
                    &&& step == PopulateStep::Done
                    &&& final(self).requested == old(self).requested
                    &&& final(self).response.bookmark is None
                    &&& !final(self).response.is_new
                    &&& final(self).response.error matches Some(e) && e@
                        == failed_to_parse_message()
                },
            },
    {
        match result {
            Ok(c) => match c.bookmark {
                Some(found) => {
                    let requested = self.requested.take().unwrap();
                    let sent_title = json_round_trip(requested.title.as_str());
                    let title = if chars_of(sent_title.as_str()).len() > 0 {
                        sent_title
                    } else {
                        c.metadata.title.unwrap()
                    };
                    let sent_description = json_round_trip(requested.description.as_str());
                    let description = if chars_of(sent_description.as_str()).len() > 0 {
                        sent_description
                    } else {
                        or_empty(c.metadata.description)
                    };
                    let notes = json_round_trip(requested.notes.as_str());
                    let merged = Bookmark {
                        linkding_internal_id: found.id,
                        user_account_id: self.account.id,
                        id: None,
                        title,
                        description,
                        notes,
                        tag_names: requested.tag_names,
                        ..found
                    };
                    PopulateStep::Edit(merged)
                },
                None => {
                    self.response.is_new = true;
                    PopulateStep::Create { backoff_ms: 0 }
                },
            },
            Err(_) => {
                self.response.error = Some(text("Failed to parse response"));
                PopulateStep::Done
            },
        }
    }

    /// Takes the outcome of a create request: the reply with the bookmark its
    /// body holds, if it reads as one, or the transport's error. `201
    /// Created` ends successfully with the returned bookmark adopted;
    /// `503 Service Unavailable` is tried again after a wait that doubles
    /// from one second, at most three times, and then ends with that error;
    /// any other status, an unreadable body or a failed request ends with an
    /// error.
    pub fn on_create(&mut self, result: Result<(HttpReply, Option<Bookmark>), String>) -> (step:
        PopulateStep)
        requires
            old(self).response.is_new,
            old(self).retry_count <= MAX_CREATE_RETRIES,
        ensures
            final(self).account == old(self).account,
            final(self).requested == old(self).requested,
            final(self).response.is_new,
            final(self).retry_count <= MAX_CREATE_RETRIES + 1,
            match result {
                Ok((reply, parsed)) => if reply.status == 201 {
                    &&& step == PopulateStep::Done
                    &&& final(self).retry_count == old(self).retry_count
                    &&& match parsed {
                        Some(v) => final(self).response == BookmarkCheckDetailsResponse {
                            bookmark: Some(adopt_spec(old(self).account, v)),
                            successful: true,
                            ..old(self).response
                        },
                        None => final(self).response.bookmark == old(self).response.bookmark
                            && final(self).response.successful == old(self).response.successful
                            && (final(self).response.error matches Some(e) && e@
                            == failed_to_parse_message()),
                    }
                } else if reply.status == 503 {
                    &&& final(self).retry_count == old(self).retry_count + 1
                    &&& final(self).last_error matches Some(e) && e@ == http_error_message(
                        reply.status_text@,
                        reply.body@,
                    )
                    &&& if final(self).retry_count <= MAX_CREATE_RETRIES {
                        &&& step == PopulateStep::Create {
                            backoff_ms: backoff_ms_spec(final(self).retry_count as nat) as u64,
                        }
                        &&& final(self).response == old(self).response
                    } else {
                        &&& step == PopulateStep::Done
                        &&& final(self).response == BookmarkCheckDetailsResponse {
                            error: if old(self).response.error is None {
                                final(self).last_error
                            } else {
                                old(self).response.error
                            },
                            ..old(self).response
                        }
                    }
                } else {
                    &&& step == PopulateStep::Done
                    &&& final(self).retry_count == old(self).retry_count
                    &&& final(self).response.bookmark == old(self).response.bookmark
                    &&& final(self).response.successful == old(self).response.successful
                    &&& final(self).response.error matches Some(e) && e@ == http_error_message(
                        reply.status_text@,
                        reply.body@,
                    )
                },
                Err(e) => {
                    &&& step == PopulateStep::Done
                    &&& final(self).retry_count == old(self).retry_count
                    &&& final(self).response.bookmark == old(self).response.bookmark
                    &&& final(self).response.successful == old(self).response.successful
                    &&& final(self).response.error matches Some(m) && m@
                        == request_failed_message(e@)
                },
            },
    {
        match result {
            Ok((reply, parsed)) => {
                if reply.status == 201 {
                    match parsed {
                        Some(v) => {
                            let adopted = Bookmark {
                                linkding_internal_id: v.id,
                                user_account_id: self.account.id,
                                id: None,
                                ..v
                            };
                            self.response.bookmark = Some(adopted);
                            self.response.successful = true;
                        },
                        None => {
                            self.response.error = Some(text("Failed to parse response"));
                        },
                    }
                    PopulateStep::Done
                } else if reply.status == 503 {
                    self.last_error = Some(http_error(&reply));
                    self.retry_count = self.retry_count + 1;
                    if self.retry_count <= MAX_CREATE_RETRIES {
                        let wait = backoff_ms(self.retry_count);
                        PopulateStep::Create { backoff_ms: wait }
                    } else {
                        if self.response.error.is_none() {
                            self.response.error = self.last_error.clone();
                        }
                        PopulateStep::Done
                    }
                } else {
                    self.response.error = Some(http_error(&reply));
                    PopulateStep::Done
                }
            },
            Err(e) => {
                let parts = ["Request failed: ", e.as_str()];
                let msg = cat(&parts);
                proof {
                    reveal_with_fuel(join_all, 3);
                    assert(parts@.map_values(|p: &str| p@) =~= seq!["Request failed: "@, e@]);
                }
                self.response.error = Some(msg);
                PopulateStep::Done
            },
        }
    }

    /// Takes the outcome of the edit request with the bookmark that was
    /// sent: the edited bookmark on success, else the sent bookmark and an
    /// error.
    pub fn on_edit(&mut self, sent: Bookmark, result: Result<Bookmark, String>) -> (step:
        PopulateStep)
        ensures
            step == PopulateStep::Done,
            final(self).account == old(self).account,
            final(self).requested == old(self).requested,
            final(self).retry_count == old(self).retry_count,
            final(self).last_error == old(self).last_error,
            match result {
                Ok(v) => final(self).response == BookmarkCheckDetailsResponse {
                    bookmark: Some(v),
                    successful: true,
                    ..old(self).response
                },
                Err(_) => {
                    &&& final(self).response.bookmark == Some(sent)
                    &&& final(self).response.successful == old(self).response.successful
                    &&& final(self).response.is_new == old(self).response.is_new
                    &&& final(self).response.error matches Some(e) && e@
                        == failed_to_parse_message()
                },
            },
    {
        match result {
            Ok(v) => {
                self.response.bookmark = Some(v);
                self.response.successful = true;
            },
            Err(_) => {
                self.response.bookmark = Some(sent);
                self.response.error = Some(text("Failed to parse response"));
            },
        }
        PopulateStep::Done
    }

    /// The outcome.
    pub fn finish(self) -> (res: BookmarkCheckDetailsResponse)
        ensures
            res == self.response,
    {
        self.response
    }
}

/// The wait before retry number `n`, from one to the most retries.
pub fn backoff_ms(n: u32) -> (res: u64)
    requires
        1 <= n <= MAX_CREATE_RETRIES,
    ensures
        res == backoff_ms_spec(n as nat),
{
    proof {
        reveal_with_fuel(pow2, 3);
    }
    if n == 1 {
        1000
    } else if n == 2 {
        2000
    } else {
        4000
    }
}

} // verus!
