use cosmicding::models::account::Account;
use cosmicding::models::bookmarks::Bookmark;
use cosmicding::models::db_cursor::{
    count_pages, AccountsPaginationCursor, BookmarksPaginationCursor, BookmarksQuery, Pagination,
};
use cosmicding::models::operation::OperationProgress;
use cosmicding::models::provider::Provider;

#[test]
fn provider_names_read_back() {
    assert_eq!(Provider::from_str(&Provider::Cosmicding.to_string()), Provider::Cosmicding);
    assert_eq!(Provider::from_str(&Provider::Linkding.to_string()), Provider::Linkding);
    assert_eq!(Provider::Linkding.to_string(), "linkding");
}

fn stored(id: Option<i64>, url: &str, title: &str, website: Option<&str>) -> Bookmark {
    let mut b = Bookmark::new(
        Some(1),
        Some(40),
        url.to_string(),
        title.to_string(),
        "d".to_string(),
        String::new(),
        String::new(),
        "n".to_string(),
        String::new(),
        String::new(),
        String::new(),
        false,
        true,
        false,
        vec!["t".to_string()],
        Some("2024-01-01T00:00:00Z".to_string()),
        None,
        Some(true),
    );
    b.id = id;
    b.website_title = website.map(str::to_string);
    b
}

#[test]
fn merging_keeps_identity_and_takes_the_edits() {
    let old = stored(Some(7), "https://a", "Old", Some("Site"));
    let mut newer = stored(None, "https://b", "New", None);
    newer.date_modified = Some("2024-02-02T00:00:00Z".to_string());
    newer.is_owner = Some(false);
    let merged = old.clone().merge(newer.clone());
    assert_eq!(merged.id, Some(7));
    assert_eq!(merged.url, "https://b");
    assert_eq!(merged.title, "New");
    assert_eq!(merged.website_title.as_deref(), Some("Site"));
    assert_eq!(merged.date_modified.as_deref(), Some("2024-02-02T00:00:00Z"));
    assert_eq!(merged.is_owner, Some(true));
    // merging again with the same copy changes nothing
    let again = merged.clone().merge(newer);
    assert_eq!(again.id, merged.id);
    assert_eq!(again.url, merged.url);
    assert_eq!(again.website_title, merged.website_title);
    assert_eq!(again.date_modified, merged.date_modified);
    // a bookmark merged with itself is itself
    let same = old.clone().merge(old.clone());
    assert_eq!(same.title, old.title);
    assert_eq!(same.website_title, old.website_title);
}

#[test]
fn remote_sync_is_needed_only_for_remote_settings() {
    let a = Account::new("n".to_string(), "t".to_string(), "https://i".to_string());
    assert!(!a.requires_remote_sync(&a.clone()));
    let mut renamed = a.clone();
    renamed.display_name = "other".to_string();
    assert!(!renamed.requires_remote_sync(&a));
    let mut moved = a.clone();
    moved.instance = "https://j".to_string();
    assert!(moved.requires_remote_sync(&a));
    assert!(a.requires_remote_sync(&moved));
    let mut disabled = a.clone();
    disabled.enabled = false;
    assert!(disabled.requires_remote_sync(&a));
}

#[test]
fn page_counts() {
    assert_eq!(count_pages(0, 10), 1);
    assert_eq!(count_pages(10, 10), 1);
    assert_eq!(count_pages(11, 10), 2);
    assert_eq!(count_pages(25, 5), 5);
    assert_eq!(count_pages(0, 0), 1);
    assert_eq!(count_pages(3, 0), usize::MAX);
}

#[test]
fn cursors_move_their_window() {
    let mut c = BookmarksPaginationCursor::new();
    c.items_per_page = 10;
    c.refresh_count(35);
    assert_eq!(c.total_pages, 4);
    c.current_page = 3;
    match c.fetch_next_results() {
        BookmarksQuery::Page { limit, offset, .. } => assert_eq!((limit, offset), (10, 20)),
        other => panic!("unexpected {:?}", other),
    }
    c.current_page = 9;
    assert!(!c.refresh_count(35));
    assert_eq!(c.current_page, 4);
    c.search_query = Some("q".to_string());
    c.receive_search(3, vec![]);
    assert_eq!(c.total_pages, 1);
    assert_eq!(c.current_page, 1);
    assert!(matches!(c.fetch_next_results(), BookmarksQuery::Search { offset: 0, .. }));

    let mut a = AccountsPaginationCursor::new();
    a.items_per_page = 2;
    a.current_page = 5;
    assert!(a.refresh_count(3));
    assert_eq!(a.current_page, 2);
    let q = a.fetch_next_results();
    assert_eq!((q.limit, q.offset), (2, 2));
    a.refresh_offset(0);
    assert_eq!((a.offset, a.current_page), (0, 1));
}

#[test]
fn operation_progress_advances() {
    let mut p = OperationProgress {
        operation_id: 1,
        total: 3,
        current: 0,
        operation_label: "x".to_string(),
        cancellable: false,
    };
    p.advance();
    assert_eq!(p.current, 1);
}
