use cosmicding::app::actions::ApplicationAction;
use cosmicding::app::config::{AppTheme, CosmicConfig, SortOption};
use cosmicding::app::context::ContextPage;
use cosmicding::app::dialog::DialogPage;
use cosmicding::app::model::{
    favicon_address, normalize_tags, tags_from_input, AppModel, Effect, ImportRead, Notice,
    ProfilePurpose,
};
use cosmicding::app::nav::AppNavPage;
use cosmicding::app::ApplicationState;
use cosmicding::models::account::{Account, LinkdingAccountApiResponse};
use cosmicding::models::bookmarks::{Bookmark, DetailedResponse};
use cosmicding::models::favicon_cache::FaviconCache;
use cosmicding::models::provider::Provider;
use cosmicding::models::sync_status::SyncStatus;

fn model() -> AppModel {
    AppModel::new(CosmicConfig::default())
}

fn remote(id: i64, name: &str, enabled: bool) -> Account {
    let mut a = Account::new(name.to_string(), "t".to_string(), "https://r.example".to_string());
    a.id = Some(id);
    a.enabled = enabled;
    a
}

fn local(id: i64, name: &str) -> Account {
    let mut a = remote(id, name, true);
    a.provider = Provider::Cosmicding;
    a.provider_version = Some("0.1.0".to_string());
    a
}

fn bookmark(account: i64, url: &str) -> Bookmark {
    Bookmark::new(
        Some(account),
        None,
        url.to_string(),
        url.to_string(),
        String::new(),
        String::new(),
        String::new(),
        String::new(),
        String::new(),
        String::new(),
        String::new(),
        false,
        false,
        false,
        vec![],
        None,
        None,
        None,
    )
}

#[test]
fn a_new_model_is_idle() {
    let m = model();
    assert_eq!(m.state, ApplicationState::NoEnabledRemoteAccounts);
    assert_eq!(m.sync_status, SyncStatus::Unsynced);
    assert_eq!(m.bookmarks_cursor.items_per_page, 10);
    assert_eq!(m.accounts_cursor.current_page, 1);
    assert!(!m.show_context);
    assert_eq!(m.nav_page, AppNavPage::BookmarksView);
}

#[test]
fn navigation_pages() {
    let mut m = model();
    assert!(matches!(&m.open_accounts_page()[..], [Effect::ActivateAccountsPage]));
    assert_eq!(m.nav_page, AppNavPage::AccountsView);
    m.select_nav_page(AppNavPage::BookmarksView);
    assert_eq!(m.nav_page, AppNavPage::BookmarksView);
}

#[test]
fn context_drawer_toggles() {
    let mut m = model();
    m.toggle_context_page(ContextPage::About);
    assert!(m.show_context);
    assert_eq!(m.context_page, ContextPage::About);
    m.toggle_context_page(ContextPage::About);
    assert!(!m.show_context);
    m.toggle_context_page(ContextPage::Settings);
    m.context_close();
    assert!(!m.show_context);
    assert_eq!(ContextPage::About.title(), "about");
    assert_eq!(ContextPage::NewBookmarkForm.title(), "add-bookmark");
}

#[test]
fn refreshing_all_accounts_walks_the_queue() {
    let mut m = model();
    m.accounts_view.accounts = vec![local(1, "l"), remote(2, "a", true), remote(3, "off", false), remote(4, "b", true)];
    let effects = m.start_refresh_all();
    assert_eq!(m.state, ApplicationState::Refreshing);
    let p = m.operation_progress.clone().unwrap();
    assert_eq!((p.total, p.current), (2, 0));
    let rest = match &effects[..] {
        [Effect::FetchBookmarks(first, rest)] => {
            assert_eq!(first.id, Some(2));
            rest.clone()
        }
        other => panic!("unexpected {:?}", other),
    };
    assert_eq!(rest.len(), 1);
    // a second request while refreshing does nothing
    assert!(m.start_refresh_all().is_empty());

    let response = DetailedResponse::new(remote(2, "a", true), 10, true, Some(vec![]));
    let effects = m.done_refresh_single(response.clone(), rest);
    assert_eq!(effects.len(), 2);
    assert!(matches!(&effects[1], Effect::FetchBookmarks(next, more) if next.id == Some(4) && more.is_empty()));
    assert_eq!(m.operation_progress.as_ref().unwrap().current, 1);

    let effects = m.done_refresh_single(response, vec![]);
    assert_eq!(effects.len(), 4);
    assert!(matches!(effects[3], Effect::Notify(Notice::RefreshedBookmarks)));
    assert_eq!(m.state, ApplicationState::Ready);
    assert_eq!(m.sync_status, SyncStatus::Successful);
    assert!(m.operation_progress.is_none());
}

#[test]
fn refreshing_without_remote_accounts_only_reloads() {
    let mut m = model();
    assert!(m.start_refresh_all().is_empty());
    m.accounts_view.accounts = vec![local(1, "l"), remote(2, "off", false)];
    m.state = ApplicationState::Ready;
    let effects = m.start_refresh_all();
    assert!(matches!(&effects[..], [Effect::Then(ApplicationAction::LoadBookmarks)]));
    assert_eq!(m.state, ApplicationState::NoEnabledRemoteAccounts);
}

#[test]
fn adding_an_account() {
    let mut m = model();
    let a = remote(9, "new", true);
    assert!(matches!(&m.start_add_account(a.clone(), true)[..], [Effect::Notify(Notice::AccountExists)]));
    assert!(matches!(
        &m.start_add_account(a.clone(), false)[..],
        [Effect::FetchAccountDetails(_, ProfilePurpose::Add)]
    ));
    let mut profile = LinkdingAccountApiResponse::default();
    profile.version = Some("1.40.0".to_string());
    let effects = m.done_add_account(a.clone(), Some(profile));
    assert_eq!(effects.len(), 4);
    match &effects[0] {
        Effect::CreateAccount(stored) => assert_eq!(stored.provider_version.as_deref(), Some("1.40.0")),
        other => panic!("unexpected {:?}", other),
    }
    let mut failed = LinkdingAccountApiResponse::default();
    failed.error = Some("Invalid API token".to_string());
    let effects = m.done_add_account(a, Some(failed));
    assert!(matches!(&effects[..], [Effect::Notify(Notice::FailedToAddAccount(_, Some(e)))] if e == "Invalid API token"));
}

#[test]
fn paging_stays_within_the_pages() {
    let mut m = model();
    m.bookmarks_cursor.total_pages = 2;
    m.increment_page_index("bookmarks".to_string());
    assert_eq!(m.bookmarks_cursor.current_page, 2);
    let effects = m.increment_page_index("bookmarks".to_string());
    assert_eq!(m.bookmarks_cursor.current_page, 2);
    assert!(matches!(&effects[..], [Effect::Then(ApplicationAction::LoadBookmarks)]));
    m.decrement_page_index("bookmarks".to_string());
    m.decrement_page_index("bookmarks".to_string());
    assert_eq!(m.bookmarks_cursor.current_page, 1);
    let effects = m.decrement_page_index("accounts".to_string());
    assert!(matches!(&effects[..], [Effect::Then(ApplicationAction::LoadAccounts)]));
    assert!(m.increment_page_index("other".to_string()).is_empty());
}

#[test]
fn searching_and_clearing_the_search() {
    let mut m = model();
    m.bookmarks_cursor.current_page = 3;
    m.search_bookmarks("rust".to_string());
    assert_eq!(m.bookmarks_cursor.search_query.as_deref(), Some("rust"));
    assert_eq!(m.bookmarks_cursor.current_page, 3);
    m.search_bookmarks(String::new());
    assert!(m.bookmarks_cursor.search_query.is_none());
    assert_eq!(m.bookmarks_cursor.current_page, 1);
    assert_eq!(m.bookmarks_cursor.offset, 0);
}

#[test]
fn dialogs_open_close_and_confirm() {
    let mut m = model();
    m.open_dialog(DialogPage::PurgeFaviconsCache());
    assert_eq!(m.dialog_pages.len(), 1);
    m.open_dialog(DialogPage::PurgeFaviconsCache());
    assert!(m.dialog_pages.is_empty());
    m.open_dialog(DialogPage::RemoveAccount(remote(2, "a", true)));
    let effects = m.complete_remove_dialog();
    assert!(m.dialog_pages.is_empty());
    assert!(matches!(
        &effects[..],
        [Effect::Then(ApplicationAction::RemoveAccount(a)), Effect::Then(ApplicationAction::LoadAccounts)]
            if a.id == Some(2)
    ));
    m.open_dialog(DialogPage::PurgeFaviconsCache());
    assert_eq!(m.complete_remove_dialog().len(), 3);
    assert_eq!(m.complete_remove_dialog().len(), 1);
    m.dialog_cancel();
    assert!(m.dialog_pages.is_empty());
}

#[test]
fn exporting_the_chosen_accounts() {
    let mut m = model();
    m.accounts_view.accounts = vec![remote(1, "one", true), remote(2, "two", true), remote(3, "off", false)];
    m.start_export();
    match &m.dialog_pages[0] {
        DialogPage::ExportBookmarks(accounts, chosen, path) => {
            assert_eq!(accounts.len(), 2);
            assert_eq!(chosen, &vec![false, false]);
            assert!(path.is_none());
        }
        other => panic!("unexpected {:?}", other),
    }
    m.export_select_accounts(vec![false, true]);
    m.set_export_path(Some("/tmp/out.html".to_string()));
    let all = vec![bookmark(1, "https://one"), bookmark(2, "https://two"), bookmark(2, "https://three")];
    let effects = m.perform_export(vec![remote(2, "two", true)], all);
    assert!(m.dialog_pages.is_empty());
    match &effects[..] {
        [Effect::WriteExport(path, doc, count)] => {
            assert_eq!(path, "/tmp/out.html");
            assert_eq!(*count, 2);
            assert!(doc.contains("https://two") && doc.contains("https://three"));
            assert!(!doc.contains("https://one"));
        }
        other => panic!("unexpected {:?}", other),
    }
    let effects = m.perform_export(vec![], vec![]);
    assert!(matches!(&effects[..], [Effect::Notify(Notice::ExportNoPath)]));
}

#[test]
fn importing_a_file() {
    let mut m = model();
    m.accounts_view.accounts = vec![local(1, "l")];
    m.start_import();
    m.import_select_account(0);
    m.set_import_path(Some("/tmp/in.html".to_string()));
    assert_eq!(m.begin_import().as_deref(), Some("/tmp/in.html"));
    assert_eq!(m.state, ApplicationState::Refreshing);
    let doc = "<DT><A HREF=\"https://a\">A</A>\n<DT><A HREF=\"https://b\">B</A>\n<DD>about b\n";
    let effects = m.import_file(local(1, "l"), ImportRead::Content(doc.to_string()), 7);
    let p = m.operation_progress.clone().unwrap();
    assert_eq!((p.operation_id, p.total, p.current, p.cancellable), (7, 2, 0, true));
    match &effects[..] {
        [Effect::Then(ApplicationAction::StartAddBookmark(a, first, ctx, rest)), Effect::Notify(Notice::ImportStarted(2))] => {
            assert_eq!(a.id, Some(1));
            assert_eq!(first.url, "https://a");
            assert!(ctx.is_some());
            assert_eq!(rest.len(), 1);
            assert_eq!(rest[0].0.description, "about b");
            assert_eq!(rest[0].1.current_index, 1);
        }
        other => panic!("unexpected {:?}", other),
    }
    let effects = m.done_import(2);
    assert!(matches!(&effects[..], [Effect::Notify(Notice::ImportFinished(2))]));
    assert_eq!(m.state, ApplicationState::Ready);
    assert!(m.operation_progress.is_none());
}

#[test]
fn failed_imports_say_why() {
    let mut m = model();
    let a = local(1, "l");
    assert!(matches!(&m.import_file(a.clone(), ImportRead::NoPath, 1)[..], [Effect::Notify(Notice::ImportNoPath), _]));
    assert!(matches!(
        &m.import_file(a.clone(), ImportRead::NotFound("/x".to_string()), 1)[..],
        [Effect::Notify(Notice::ImportFileNotFound(_)), _]
    ));
    assert!(matches!(
        &m.import_file(a.clone(), ImportRead::Content("<html></html>".to_string()), 1)[..],
        [Effect::Notify(Notice::ImportNoBookmarks), Effect::Then(ApplicationAction::DoneImportBookmarks(0))]
    ));
    assert!(matches!(
        &m.import_file(a, ImportRead::Content("<DT><A HREF=\"x\">t\n".to_string()), 1)[..],
        [Effect::Notify(Notice::ImportError(_)), _]
    ));
    assert!(matches!(
        &m.import_file(local(1, "l"), ImportRead::Content("<DT><A HREF=\"u\" </A>>\n".to_string()), 1)[..],
        [Effect::Notify(Notice::ImportError(e)), _] if e == "No closing </A> tag"
    ));
    assert!(matches!(&m.cancel_import()[..], [Effect::Then(ApplicationAction::DoneImportBookmarks(0))]));
}

#[test]
fn removing_an_account_drops_its_listed_bookmarks() {
    let mut m = model();
    m.bookmarks_view.bookmarks = vec![bookmark(1, "a"), bookmark(2, "b"), bookmark(1, "c")];
    let effects = m.remove_account(remote(1, "gone", true));
    assert_eq!(m.bookmarks_view.bookmarks.len(), 1);
    assert_eq!(m.bookmarks_view.bookmarks[0].url, "b");
    assert!(matches!(effects[0], Effect::DeleteAccount(1)));
    assert_eq!(effects.len(), 5);
}

#[test]
fn loaded_accounts_list_local_ones_first() {
    let mut m = model();
    m.context_selected_account_index = 5;
    let mut old_local = local(3, "l");
    old_local.provider_version = None;
    let effects = m.accounts_loaded(vec![remote(1, "r", true), old_local], vec![remote(1, "r", true)]);
    let ids: Vec<Option<i64>> = m.accounts_view.accounts.iter().map(|a| a.id).collect();
    assert_eq!(ids, vec![Some(3), Some(1)]);
    assert_eq!(m.accounts_view.accounts[0].provider_version.as_deref(), Some("0.1.0"));
    assert!(matches!(&effects[..], [Effect::UpdateAccount(a)] if a.id == Some(3)));
    assert_eq!(m.context_selected_account_index, 0);
}

#[test]
fn loading_bookmarks_pages_and_favicons() {
    let mut m = model();
    m.config.sort_option = SortOption::BookmarkAlphabeticalAscending;
    m.bookmarks_cursor.current_page = 2;
    let q = m.begin_load_bookmarks();
    assert_eq!(m.bookmarks_cursor.offset, 10);
    assert_eq!(m.bookmarks_cursor.sort_option, SortOption::BookmarkAlphabeticalAscending);
    assert!(format!("{:?}", q).contains("offset: 10"));
    m.bookmarks_cursor.receive_page(vec![bookmark(1, "x"), bookmark(1, "y")]);
    let effects = m.bookmarks_loaded();
    assert_eq!(m.bookmarks_view.bookmarks.len(), 2);
    assert_eq!(effects.len(), 2);
    m.set_enable_favicons(false);
    assert!(m.bookmarks_loaded().is_empty());
}

#[test]
fn favicons_are_fetched_when_due() {
    let mut m = model();
    let url = "https://f.ico".to_string();
    assert_eq!(m.start_fetch_favicon(url.clone(), None, 100).len(), 1);
    let fresh = FaviconCache::new(url.clone(), vec![1, 2], 1000);
    assert!(m.start_fetch_favicon(url.clone(), Some(fresh.clone()), 1000 + 86400).is_empty());
    assert_eq!(m.start_fetch_favicon(url.clone(), Some(fresh), 1000 + 86401).len(), 1);
    let empty = FaviconCache::new(url.clone(), vec![], 1000);
    assert!(m.start_fetch_favicon(url.clone(), Some(empty.clone()), 1000 + 3600).is_empty());
    assert_eq!(m.start_fetch_favicon(url.clone(), Some(empty), 1000 + 3601).len(), 1);
    let effects = m.done_fetch_favicon(url, vec![9], 5);
    assert!(matches!(&effects[0], Effect::StoreFavicon(f) if f.favicon_data == vec![9] && f.last_sync_timestamp == 5));
    let mut b = bookmark(1, "u");
    b.favicon_url = Some(String::new());
    assert!(favicon_address(&b).is_none());
    b.favicon_url = Some("https://i".to_string());
    assert_eq!(favicon_address(&b).as_deref(), Some("https://i"));
}

#[test]
fn settings_are_saved() {
    let mut m = model();
    let effects = m.set_app_theme(AppTheme::Dark);
    assert_eq!(m.config.app_theme, AppTheme::Dark);
    assert!(matches!(&effects[..], [Effect::SaveConfig(_), Effect::ApplyTheme(AppTheme::Dark)]));
    assert_eq!(m.set_sort_option(SortOption::BookmarksDateOldest).len(), 1);
    m.bookmarks_view.bookmarks = vec![bookmark(1, "x")];
    assert_eq!(m.set_sort_option(SortOption::BookmarksDateNewest).len(), 2);
    m.bookmarks_cursor.current_page = 4;
    let effects = m.set_items_per_page(25);
    assert_eq!(effects.len(), 5);
    assert_eq!(m.config.items_per_page, 25);
    assert_eq!(m.bookmarks_cursor.items_per_page, 25);
    assert_eq!(m.bookmarks_cursor.current_page, 1);
    assert_eq!(AppTheme::from_settings_index(AppTheme::Light.settings_index()), AppTheme::Light);
    assert_eq!(CosmicConfig::config(None), CosmicConfig::default());
}

#[test]
fn startup_refreshes_remote_profiles_then_everything() {
    let mut m = model();
    m.accounts_view.accounts = vec![local(1, "l"), remote(2, "r", true)];
    let effects = m.startup_completed();
    assert_eq!(effects.len(), 2);
    assert!(matches!(&effects[0], Effect::Then(ApplicationAction::StartRefreshAccountProfile(a)) if a.id == Some(2)));
    assert!(matches!(&effects[1], Effect::After(1000, ApplicationAction::StartRefreshBookmarksForAllAccounts)));
    m.state = ApplicationState::Refreshing;
    assert!(m.search_activate().is_empty());
    m.state = ApplicationState::Ready;
    assert!(matches!(&m.search_activate()[..], [Effect::FocusSearch]));
}

#[test]
fn form_tags() {
    assert_eq!(tags_from_input("a b"), vec!["a".to_string(), "b".to_string()]);
    assert_eq!(tags_from_input("a  b"), vec!["a".to_string(), String::new(), "b".to_string()]);
    assert!(tags_from_input("").is_empty());
    let tags = vec!["rust".to_string(), "web".to_string(), "x".to_string()];
    assert_eq!(tags_from_input(&tags.join(" ")), tags);
    assert_eq!(
        normalize_tags(vec![" a ".to_string(), String::new(), "b".to_string()]),
        vec!["a".to_string(), "b".to_string()]
    );
}

#[test]
fn escape_closes_the_dialog_before_the_drawer() {
    let mut m = model();
    m.toggle_context_page(ContextPage::About);
    m.open_dialog(DialogPage::PurgeFaviconsCache());
    m.on_escape();
    assert!(m.dialog_pages.is_empty());
    assert!(m.show_context);
    m.on_escape();
    assert!(!m.show_context);
}
