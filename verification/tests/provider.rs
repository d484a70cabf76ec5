use cosmicding::models::account::{Account, LinkdingAccountApiResponse};
use cosmicding::models::bookmarks::{
    Bookmark, LinkdingBookmarksApiCheckMetadata, LinkdingBookmarksApiCheckResponse,
};
use cosmicding::models::provider::Provider;
use cosmicding::provider::cosmicding::{
    existing_lookup, fetch_bookmarks_for_account, get_provider_version as local_version,
    local_fetch_response, populate_bookmark, populate_bookmark_at, remove_bookmark,
};
use cosmicding::provider::linkding::{
    account_details, archived_bookmarks_url, authorization, backoff_ms, bookmark_from_api,
    bookmark_url, bookmarks_url, check_account_reply, check_bookmark_reply, check_url,
    edit_bookmark_reply, profile_url, remove_bookmark_reply, request_payload,
    shared_bookmarks_url, BookmarkFetch, BookmarkList, BookmarkPopulate, HttpReply, ListReply,
    PopulateStep,
};
use cosmicding::provider::{
    failed_fetch_response, fetch_account_details, get_provider_version, has_remote_profile,
};

fn account() -> Account {
    let mut a = Account::new(
        "home".to_string(),
        "secret-token".to_string(),
        "https://ld.example".to_string(),
    );
    a.id = Some(5);
    a
}

fn api_bookmark(id: i64, url: &str, title: &str) -> Bookmark {
    let mut b = Bookmark::new(
        None,
        None,
        url.to_string(),
        title.to_string(),
        String::new(),
        String::new(),
        String::new(),
        String::new(),
        String::new(),
        String::new(),
        String::new(),
        false,
        false,
        false,
        vec![],
        None,
        None,
        None,
    );
    b.id = Some(id);
    b.website_title = None;
    b.favicon_url = None;
    b
}

fn reply(status: u16, text: &str, body: &str) -> HttpReply {
    HttpReply { status, status_text: text.to_string(), body: body.to_string() }
}

#[test]
fn endpoint_addresses() {
    let a = account();
    assert_eq!(bookmarks_url(&a), "https://ld.example/api/bookmarks/");
    assert_eq!(archived_bookmarks_url(&a), "https://ld.example/api/bookmarks/archived/");
    assert_eq!(shared_bookmarks_url(&a), "https://ld.example/api/bookmarks/shared/");
    assert_eq!(bookmark_url(&a, 42), "https://ld.example/api/bookmarks/42/");
    assert_eq!(bookmark_url(&a, -3), "https://ld.example/api/bookmarks/-3/");
    assert_eq!(profile_url(&a), "https://ld.example/api/user/profile/");
    assert_eq!(authorization(&a), "Token secret-token");
}

#[test]
fn check_address_percent_encodes_the_url() {
    let a = account();
    assert_eq!(
        check_url(&a, "https://a.b/x y?q=é", false),
        "https://ld.example/api/bookmarks/check/?url=https%3A%2F%2Fa.b%2Fx%20y%3Fq%3D%C3%A9"
    );
    assert_eq!(
        check_url(&a, "a-b_c.d~e", true),
        "https://ld.example/api/bookmarks/check/?url=a-b_c.d~e&disable_scraping=true"
    );
}

#[test]
fn profile_replies() {
    let ok = check_account_reply(&reply(200, "200 OK", "{}"), Some(LinkdingAccountApiResponse::default()));
    assert!(ok.is_ok());
    let unreadable = check_account_reply(&reply(200, "200 OK", "<html>"), None);
    assert_eq!(unreadable.unwrap_err(), "Failed to find linkding API endpoint");
    let refused = check_account_reply(&reply(401, "401 Unauthorized", ""), None);
    assert_eq!(refused.unwrap_err(), "Invalid API token");
    let odd = check_account_reply(&reply(500, "500 Internal Server Error", ""), None);
    assert_eq!(odd.unwrap_err(), "Unexpected HTTP return code 500 Internal Server Error");
    let check = check_bookmark_reply(&reply(418, "418 I'm a teapot", ""), None);
    assert_eq!(check.unwrap_err(), "Unexpected HTTP return code 418 I'm a teapot");
}

#[test]
fn account_details_record_the_outcome() {
    let mut profile = LinkdingAccountApiResponse::default();
    profile.enable_sharing = true;
    profile.version = Some("1.39.1".to_string());
    let d = account_details(Ok(profile));
    assert_eq!(d.successful, Some(true));
    assert!(d.enable_sharing);
    assert_eq!(d.version.as_deref(), Some("1.39.1"));

    let bad_url = account_details(Err("builder error: relative URL without a base".to_string()));
    assert_eq!(bad_url.successful, Some(false));
    assert_eq!(bad_url.error.as_deref(), Some("Provided URL is not valid"));

    let other = account_details(Err("connection refused".to_string()));
    assert_eq!(other.error.as_deref(), Some("connection refused"));
    assert!(other.version.is_none());
}

#[test]
fn account_details_only_for_remote_accounts() {
    let mut local = account();
    local.provider = Provider::Cosmicding;
    assert!(!has_remote_profile(&local));
    assert!(fetch_account_details(&local, None).is_none());
    let remote = account();
    assert!(has_remote_profile(&remote));
    let d = fetch_account_details(&remote, Some(Err("timeout".to_string()))).unwrap();
    assert_eq!(d.error.as_deref(), Some("timeout"));
}

#[test]
fn provider_versions() {
    assert_eq!(get_provider_version(Provider::Cosmicding, None).as_deref(), Some("0.1.0"));
    assert_eq!(local_version(), "0.1.0");
    assert!(get_provider_version(Provider::Linkding, None).is_none());
    let mut profile = LinkdingAccountApiResponse::default();
    profile.version = Some("1.2.3".to_string());
    assert_eq!(get_provider_version(Provider::Linkding, Some(&profile)).as_deref(), Some("1.2.3"));
}

#[test]
fn removing_and_editing_replies() {
    let done = remove_bookmark_reply(&reply(204, "204 No Content", ""));
    assert!(done.successful && done.error.is_none());
    let gone = remove_bookmark_reply(&reply(404, "404 Not Found", "gone"));
    assert!(!gone.successful);
    assert_eq!(gone.error.as_deref(), Some("HTTP error 404 Not Found: gone"));

    let a = account();
    let edited = edit_bookmark_reply(&a, &reply(200, "200 OK", "{}"), Some(api_bookmark(7, "u", "t")))
        .unwrap();
    assert_eq!(edited.linkding_internal_id, Some(7));
    assert_eq!(edited.id, None);
    assert_eq!(edited.user_account_id, Some(5));
    assert_eq!(edited.is_owner, Some(true));
    let unreadable = edit_bookmark_reply(&a, &reply(200, "200 OK", "x"), None);
    assert_eq!(unreadable.unwrap_err(), "Failed to parse response");
    let failed = edit_bookmark_reply(&a, &reply(400, "400 Bad Request", "no"), None);
    assert_eq!(failed.unwrap_err(), "HTTP error 400 Bad Request: no");
}

#[test]
fn request_payload_carries_the_edited_fields() {
    let mut b = api_bookmark(1, "https://x.y", "X");
    b.tag_names = vec!["a".to_string()];
    b.unread = true;
    let p = request_payload(&b);
    assert_eq!(p.url, "https://x.y");
    assert_eq!(p.title, "X");
    assert_eq!(p.tag_names, vec!["a".to_string()]);
    assert!(p.unread && !p.shared && !p.is_archived);
}

#[test]
fn api_bookmarks_are_adopted() {
    let b = bookmark_from_api(Some(5), api_bookmark(9, "u", "t"), false);
    assert_eq!(b.id, None);
    assert_eq!(b.linkding_internal_id, Some(9));
    assert_eq!(b.user_account_id, Some(5));
    assert_eq!(b.website_title.as_deref(), Some(""));
    assert_eq!(b.favicon_url.as_deref(), Some(""));
    assert_eq!(b.is_owner, Some(false));
    assert!(b.favicon_cached.is_none());
}

#[test]
fn fetching_three_lists_keeps_shared_bookmarks_once() {
    let date = "Tue, 1 Jul 2003 10:52:37 +0200".to_string();
    let mut fetch = BookmarkFetch::new(account());
    assert!(!fetch.response.successful);
    let own = ListReply {
        successful: true,
        date: date.clone(),
        results: Some(vec![api_bookmark(1, "a", "A"), api_bookmark(2, "b", "B")]),
    };
    assert!(fetch.absorb(BookmarkList::Owned, own));
    assert!(fetch.response.successful);
    assert_eq!(fetch.response.timestamp, 1057049557);
    let archived =
        ListReply { successful: true, date: date.clone(), results: Some(vec![api_bookmark(3, "c", "C")]) };
    assert!(fetch.absorb(BookmarkList::Archived, archived));
    let shared = ListReply {
        successful: true,
        date,
        results: Some(vec![
            api_bookmark(2, "b", "B"),
            api_bookmark(4, "d", "D"),
            api_bookmark(4, "d", "D"),
        ]),
    };
    assert!(fetch.absorb(BookmarkList::Shared, shared));
    let response = fetch.finish();
    let bookmarks = response.bookmarks.unwrap();
    let ids: Vec<Option<i64>> = bookmarks.iter().map(|b| b.linkding_internal_id).collect();
    assert_eq!(ids, vec![Some(1), Some(2), Some(3), Some(4)]);
    assert_eq!(bookmarks[0].is_owner, Some(true));
    assert_eq!(bookmarks[2].is_owner, Some(true));
    assert_eq!(bookmarks[3].is_owner, Some(false));
    assert!(bookmarks.iter().all(|b| b.user_account_id == Some(5)));
}

#[test]
fn failed_lists_and_unreadable_dates() {
    let mut fetch = BookmarkFetch::new(account());
    let failed = ListReply { successful: false, date: String::new(), results: None };
    assert!(fetch.absorb(BookmarkList::Owned, failed.clone()));
    assert!(!fetch.response.successful);
    let ok = ListReply {
        successful: true,
        date: "Wed, 02 Oct 2002 13:00:00 GMT".to_string(),
        results: None,
    };
    assert!(fetch.absorb(BookmarkList::Owned, ok));
    assert!(fetch.response.successful);
    assert_eq!(fetch.response.timestamp, 1033563600);
    assert!(fetch.absorb(BookmarkList::Archived, failed));
    assert!(!fetch.response.successful);
    let bad_date = ListReply { successful: true, date: "yesterday".to_string(), results: None };
    assert!(!fetch.absorb(BookmarkList::Shared, bad_date));
    assert!(fetch.bookmarks.is_empty());
}

#[test]
fn whole_refresh_failures_and_local_refreshes() {
    let failed = failed_fetch_response(account(), 77);
    assert!(!failed.successful);
    assert_eq!(failed.timestamp, 77);
    assert!(failed.bookmarks.is_none());
    let local = local_fetch_response(account(), 12);
    assert!(local.successful);
    assert_eq!(local.timestamp, 12);
    assert_eq!(local.bookmarks.unwrap().len(), 0);
    assert!(fetch_bookmarks_for_account(account()).successful);
}

#[test]
fn creation_retries_with_doubling_backoff() {
    assert_eq!(backoff_ms(1), 1000);
    assert_eq!(backoff_ms(2), 2000);
    assert_eq!(backoff_ms(3), 4000);

    let (mut p, step) = BookmarkPopulate::start(account(), api_bookmark(0, "https://n.ew", "New"), true, false);
    match step {
        PopulateStep::Check { url, disable_scraping } => {
            assert_eq!(url, "https://n.ew");
            assert!(!disable_scraping);
        }
        other => panic!("unexpected step {:?}", other),
    }
    let not_found = LinkdingBookmarksApiCheckResponse {
        bookmark: None,
        metadata: LinkdingBookmarksApiCheckMetadata {
            url: None,
            title: None,
            description: None,
            preview_image: None,
        },
        auto_tags: vec![],
    };
    assert!(matches!(p.on_check(Ok(not_found)), PopulateStep::Create { backoff_ms: 0 }));
    assert!(p.response.is_new);
    let busy = || Ok((reply(503, "503 Service Unavailable", "busy"), None));
    assert!(matches!(p.on_create(busy()), PopulateStep::Create { backoff_ms: 1000 }));
    assert!(matches!(p.on_create(busy()), PopulateStep::Create { backoff_ms: 2000 }));
    assert!(matches!(p.on_create(busy()), PopulateStep::Create { backoff_ms: 4000 }));
    assert!(matches!(p.on_create(busy()), PopulateStep::Done));
    let response = p.finish();
    assert!(!response.successful);
    assert_eq!(response.error.as_deref(), Some("HTTP error 503 Service Unavailable: busy"));
}

#[test]
fn creation_succeeds_after_a_retry() {
    let (mut p, _) = BookmarkPopulate::start(account(), api_bookmark(0, "https://n.ew", "New"), true, true);
    let not_found = LinkdingBookmarksApiCheckResponse {
        bookmark: None,
        metadata: LinkdingBookmarksApiCheckMetadata {
            url: None,
            title: None,
            description: None,
            preview_image: None,
        },
        auto_tags: vec![],
    };
    p.on_check(Ok(not_found));
    p.on_create(Ok((reply(503, "503 Service Unavailable", ""), None)));
    let created = api_bookmark(31, "https://n.ew", "New");
    assert!(matches!(p.on_create(Ok((reply(201, "201 Created", "{}"), Some(created)))), PopulateStep::Done));
    let response = p.finish();
    assert!(response.successful && response.is_new);
    let b = response.bookmark.unwrap();
    assert_eq!(b.linkding_internal_id, Some(31));
    assert_eq!(b.user_account_id, Some(5));
    assert_eq!(b.id, None);
}

#[test]
fn creation_errors_end_the_request() {
    let (mut p, _) = BookmarkPopulate::start(account(), api_bookmark(0, "u", "t"), true, false);
    let not_found = LinkdingBookmarksApiCheckResponse {
        bookmark: None,
        metadata: LinkdingBookmarksApiCheckMetadata {
            url: None,
            title: None,
            description: None,
            preview_image: None,
        },
        auto_tags: vec![],
    };
    p.on_check(Ok(not_found));
    assert!(matches!(p.on_create(Err("dns failure".to_string())), PopulateStep::Done));
    assert_eq!(p.response.error.as_deref(), Some("Request failed: dns failure"));
    let (mut q, _) = BookmarkPopulate::start(account(), api_bookmark(0, "u", "t"), true, false);
    assert!(matches!(q.on_check(Err("x".to_string())), PopulateStep::Done));
    assert_eq!(q.response.error.as_deref(), Some("Failed to parse response"));
}

#[test]
fn an_existing_bookmark_is_edited_with_the_requested_fields() {
    let mut requested = api_bookmark(0, "https://o.ld", "");
    requested.notes = "line one\nline two".to_string();
    requested.tag_names = vec!["t".to_string()];
    let (mut p, _) = BookmarkPopulate::start(account(), requested, true, false);
    let mut found = api_bookmark(12, "https://o.ld", "Old title");
    found.description = "old".to_string();
    let check = LinkdingBookmarksApiCheckResponse {
        bookmark: Some(found),
        metadata: LinkdingBookmarksApiCheckMetadata {
            url: None,
            title: Some("Scraped".to_string()),
            description: Some("Scraped description".to_string()),
            preview_image: None,
        },
        auto_tags: vec![],
    };
    match p.on_check(Ok(check)) {
        PopulateStep::Edit(b) => {
            assert_eq!(b.title, "Scraped");
            assert_eq!(b.description, "Scraped description");
            assert_eq!(b.notes, "line one\nline two");
            assert_eq!(b.tag_names, vec!["t".to_string()]);
            assert_eq!(b.linkding_internal_id, Some(12));
            assert_eq!(b.user_account_id, Some(5));
        }
        other => panic!("unexpected step {:?}", other),
    }
    let (_, step) = BookmarkPopulate::start(account(), api_bookmark(3, "u", "t"), false, false);
    assert!(matches!(step, PopulateStep::Edit(_)));
}

#[test]
fn local_accounts_populate_and_remove() {
    let a = account();
    assert_eq!(existing_lookup(&a, true), Some(5));
    assert_eq!(existing_lookup(&a, false), None);
    let mut fresh = api_bookmark(0, "https://l.oc", "Local");
    fresh.id = None;
    let r = populate_bookmark_at(&a, fresh.clone(), None, "2025-01-31T12:00:00.000000Z".to_string());
    assert!(r.successful && r.is_new);
    let b = r.bookmark.unwrap();
    assert_eq!(b.user_account_id, Some(5));
    assert_eq!(b.date_added.as_deref(), Some("2025-01-31T12:00:00.000000Z"));
    assert_eq!(b.date_modified.as_deref(), Some("2025-01-31T12:00:00.000000Z"));

    let mut stored = fresh.clone();
    stored.id = Some(88);
    stored.date_added = Some("2020-01-01T00:00:00.000000Z".to_string());
    let r = populate_bookmark_at(&a, fresh.clone(), Some(stored), "2025-02-01T00:00:00.000000Z".to_string());
    assert!(!r.is_new);
    let b = r.bookmark.unwrap();
    assert_eq!(b.id, Some(88));
    assert_eq!(b.date_added.as_deref(), Some("2020-01-01T00:00:00.000000Z"));
    assert_eq!(b.date_modified.as_deref(), Some("2025-02-01T00:00:00.000000Z"));

    let now = populate_bookmark(&a, fresh, None);
    assert!(now.successful && now.is_new);
    let stamp = now.bookmark.unwrap().date_added.unwrap();
    assert_eq!(stamp.len(), 27);
    assert!(stamp.ends_with('Z'));
    assert_eq!(stamp.as_bytes()[10], b'T');
    assert_eq!(stamp.as_bytes()[19], b'.');
    assert!(remove_bookmark().successful);
}
