use cosmicding::app::config::{AppTheme, CosmicConfig};
use cosmicding::app::context::ContextPage;
use cosmicding::app::dialog::{dialog_view, export_toggle, DialogPage, DialogTitle};
use cosmicding::app::drawer::DrawerContent;
use cosmicding::app::model::AppModel;
use cosmicding::models::bookmarks::Bookmark;
use cosmicding::models::operation::OperationProgress;
use cosmicding::pages::accounts::{add_account, choose_provider, edit_account, ProviderField};
use cosmicding::pages::bookmarks::{choose_account, edit_bookmark, new_bookmark, NewBookmarkForm, SwitchLabel};
use cosmicding::pages::{TextInput, Toggle, ToggleInput};
use cosmicding::pages::progress_view;
use cosmicding::app::actions::{AccountsAction, ApplicationAction, BookmarksAction};
use cosmicding::app::config::SortOption;
use cosmicding::app::menu::{menu_bar, MenuAction, MenuEntry, MenuLabel};
use cosmicding::app::ApplicationState;
use cosmicding::models::account::Account;
use cosmicding::models::provider::Provider;
use cosmicding::models::sync_status::SyncStatus;
use cosmicding::pages::accounts::{account_row, add_account_enabled, PageAccountsView};
use cosmicding::pages::bookmarks::{add_bookmark_enabled, tags_line, PageBookmarksView};
use cosmicding::pages::{page_navigation, sync_indicator, SyncIndicator};

#[test]
fn page_navigation_labels_and_buttons() {
    let nav = page_navigation(1, 3);
    assert_eq!(nav.label, "1/3");
    assert!(!nav.previous_enabled && nav.next_enabled);
    let nav = page_navigation(12, 12);
    assert_eq!(nav.label, "12/12");
    assert!(nav.previous_enabled && !nav.next_enabled);
}

#[test]
fn sync_indicators() {
    assert_eq!(sync_indicator(ApplicationState::Refreshing, SyncStatus::Successful), SyncIndicator::Refreshing);
    assert_eq!(
        sync_indicator(ApplicationState::NoEnabledRemoteAccounts, SyncStatus::Failed),
        SyncIndicator::Disconnected
    );
    assert_eq!(sync_indicator(ApplicationState::Ready, SyncStatus::Failed), SyncIndicator::Failed);
    assert_eq!(sync_indicator(ApplicationState::Ready, SyncStatus::Unsynced), SyncIndicator::Idle);
}

#[test]
fn tags_are_shown_with_hashes() {
    assert_eq!(tags_line(&vec!["rust".to_string(), "web".to_string()]), "#rust #web");
    assert_eq!(tags_line(&vec![]), "");
}

#[test]
fn account_rows() {
    let mut a = Account::new("n".to_string(), "t".to_string(), "https://i".to_string());
    a.provider_version = Some("1.2".to_string());
    a.enable_sharing = true;
    let row = account_row(&a, ApplicationState::Ready);
    assert_eq!(row.provider_label, "linkding: 1.2");
    assert!(row.sharing_badge && !row.public_sharing_badge && !row.local);
    let actions = row.actions.unwrap();
    assert!(actions.refresh && actions.offers_disable && actions.edit);
    let busy = account_row(&a, ApplicationState::Refreshing).actions.unwrap();
    assert!(!busy.refresh && !busy.edit && !busy.remove);
    a.provider = Provider::Cosmicding;
    a.provider_version = None;
    let row = account_row(&a, ApplicationState::Ready);
    assert!(row.local && row.actions.is_none() && !row.sharing_badge);
    assert_eq!(row.provider_label, "cosmicding");
    assert!(add_account_enabled(ApplicationState::NoEnabledRemoteAccounts));
    assert!(!add_bookmark_enabled(ApplicationState::Refreshing));
}

#[test]
fn page_messages_become_application_messages() {
    let mut accounts = PageAccountsView::default();
    let a = Account::new("n".to_string(), "t".to_string(), "https://i".to_string());
    match accounts.update(AccountsAction::ToggleAccountStatus(a.clone())) {
        ApplicationAction::StartEditAccount(t) => assert!(!t.enabled),
        other => panic!("unexpected {:?}", other),
    }
    assert!(matches!(
        accounts.update(AccountsAction::IncrementPageIndex),
        ApplicationAction::IncrementPageIndex(k) if k == "accounts"
    ));
    accounts.update(AccountsAction::EditAccount(a));
    assert!(accounts.account_placeholder.is_some());

    let mut bookmarks = PageBookmarksView::default();
    assert!(bookmarks.update(BookmarksAction::ClearSearch).is_none());
    bookmarks.update(BookmarksAction::SearchBookmarks("q".to_string()));
    assert_eq!(bookmarks.query_placeholder, "q");
    assert!(matches!(
        bookmarks.update(BookmarksAction::ClearSearch),
        Some(ApplicationAction::SearchBookmarks(q)) if q.is_empty()
    ));
    assert_eq!(bookmarks.query_placeholder, "");
    assert!(matches!(
        bookmarks.update(BookmarksAction::DecrementPageIndex),
        Some(ApplicationAction::DecrementPageIndex(k)) if k == "bookmarks"
    ));
}

#[test]
fn the_menu_bar() {
    let menus = menu_bar(true, SortOption::BookmarksDateOldest, ApplicationState::Ready);
    assert_eq!(menus.len(), 3);
    assert_eq!(menus[0].title.id(), "file");
    assert_eq!(menus[0].entries.len(), 7);
    assert_eq!(menus[0].entries[3], MenuEntry::Button(MenuLabel::ExportBookmarks, MenuAction::ExportBookmarks));
    assert!(menus[2].entries.contains(&MenuEntry::CheckBox(
        MenuLabel::BookmarkDateOldest,
        true,
        MenuAction::SetSortBookmarks(SortOption::BookmarksDateOldest)
    )));
    let busy = menu_bar(false, SortOption::BookmarksDateNewest, ApplicationState::Refreshing);
    assert_eq!(busy[0].entries[0], MenuEntry::ButtonDisabled(MenuLabel::AddAccount, MenuAction::AddAccount));
    assert!(matches!(MenuAction::About.message(), ApplicationAction::ToggleContextPage(_)));
    assert!(matches!(
        MenuAction::SetSortBookmarks(SortOption::BookmarksDateNewest).message(),
        ApplicationAction::SortOption(SortOption::BookmarksDateNewest)
    ));
}

fn linkding_account(sharing: bool) -> Account {
    let mut a = Account::new("home".to_string(), "tok".to_string(), "https://ld".to_string());
    a.id = Some(3);
    a.enable_sharing = sharing;
    a
}

fn form_bookmark() -> Bookmark {
    let mut b = Bookmark::new(
        None,
        None,
        "https://x.y".to_string(),
        "X".to_string(),
        String::new(),
        String::new(),
        String::new(),
        String::new(),
        String::new(),
        String::new(),
        String::new(),
        true,
        false,
        false,
        vec!["a".to_string(), "b".to_string()],
        None,
        None,
        Some(true),
    );
    b.shared = true;
    b
}

#[test]
fn bookmark_forms() {
    assert!(matches!(new_bookmark(form_bookmark(), &vec![], 0), NewBookmarkForm::NoAccount));
    let accounts = vec![linkding_account(false)];
    assert!(matches!(new_bookmark(form_bookmark(), &accounts, 1), NewBookmarkForm::NoAccount));
    match new_bookmark(form_bookmark(), &accounts, 0) {
        NewBookmarkForm::Form(0, f) => {
            assert_eq!(f.tags.text, "a b");
            assert_eq!(f.tags.sends, TextInput::BookmarkTags);
            assert_eq!(f.url.text, "https://x.y");
            assert!(matches!(f.url.sends.message("u".to_string()), ApplicationAction::SetBookmarkURL(u) if u == "u"));
            assert!(matches!(f.description.sends.message("d".to_string()), ApplicationAction::InputBookmarkDescription(d) if d == "d"));
            assert!(matches!(f.notes.sends.message("n".to_string()), ApplicationAction::InputBookmarkNotes(n) if n == "n"));
            assert_eq!(f.account_choice, Some(vec!["home".to_string()]));
            assert!(matches!(choose_account(0), ApplicationAction::AddBookmarkFormAccountIndex(0)));
            assert_eq!(f.account_name, "home");
            assert!(f.archived.on && f.archived.sends == Some(ToggleInput::BookmarkArchived));
            assert!(matches!(ToggleInput::BookmarkArchived.message(false), ApplicationAction::SetBookmarkArchived(false)));
            assert_eq!(f.shared.label, SwitchLabel::SharingDisabled);
            assert!(f.shared.sends.is_none());
            assert!(matches!(f.save, ApplicationAction::StartAddBookmark(a, _, None, rest) if a.id == Some(3) && rest.is_empty()));
        }
        other => panic!("unexpected {:?}", other),
    }
    let mut local = linkding_account(true);
    local.provider = Provider::Cosmicding;
    let f = edit_bookmark(form_bookmark(), &local);
    assert_eq!(f.unread.label, SwitchLabel::DisabledForLocal);
    assert!(f.unread.sends.is_none() && f.shared.sends.is_none());
    assert!(f.account_choice.is_none());
    assert!(matches!(f.save, ApplicationAction::StartEditBookmark(_, b) if b.url == "https://x.y"));
    let shared = edit_bookmark(form_bookmark(), &linkding_account(true)).shared;
    assert!(shared.sends == Some(ToggleInput::BookmarkShared) && shared.on);
}

#[test]
fn account_forms() {
    let a = linkding_account(true);
    let f = add_account(a.clone());
    assert!(matches!(f.provider, ProviderField::Choice(Some(0))));
    assert_eq!(f.enabled, Some(Toggle { on: true, sends: ToggleInput::AccountStatus }));
    assert_eq!(f.trust_invalid_certs, Toggle { on: false, sends: ToggleInput::AccountTrustInvalidCertificates });
    assert!(matches!(ToggleInput::AccountStatus.message(false), ApplicationAction::SetAccountStatus(false)));
    assert!(f.api_token.hidden && !f.display_name.hidden);
    assert_eq!(f.display_name.text, "home");
    assert!(f.sharing.is_none());
    assert!(matches!(f.save, ApplicationAction::StartAddAccount(_)));
    let e = edit_account(a);
    assert!(matches!(e.provider, ProviderField::Fixed(ref n) if n == "linkding"));
    assert_eq!(e.sharing, Some((true, false)));
    assert!(e.enabled.is_none());
    assert!(matches!(e.display_name.sends.message("x".to_string()), ApplicationAction::SetAccountDisplayName(x) if x == "x"));
    assert!(matches!(e.instance.sends.message("i".to_string()), ApplicationAction::SetAccountInstance(_)));
    assert!(matches!(e.api_token.sends.message("k".to_string()), ApplicationAction::SetAccountAPIKey(_)));
    assert!(matches!(e.trust_invalid_certs.sends.message(true), ApplicationAction::SetAccountTrustInvalidCertificates(true)));
    assert!(matches!(choose_provider(7), ApplicationAction::SetAccountProvider(Provider::Linkding)));
}

#[test]
fn dialog_buttons() {
    let a = linkding_account(false);
    let v = dialog_view(&DialogPage::RemoveAccount(a.clone()));
    assert!(matches!(v.title, DialogTitle::Remove(ref n) if n == "home"));
    assert!(matches!(v.primary, Some(ApplicationAction::CompleteRemoveDialog(Some(3), None))));
    assert!(matches!(v.cancel, ApplicationAction::DialogCancel));
    let mut other = linkding_account(false);
    other.id = Some(4);
    let export = DialogPage::ExportBookmarks(vec![a.clone(), other], vec![false, true], Some("/f".to_string()));
    match dialog_view(&export).primary {
        Some(ApplicationAction::PerformExportBookmarks(picked)) => {
            assert_eq!(picked.len(), 1);
            assert_eq!(picked[0].id, Some(4));
        }
        other => panic!("unexpected {:?}", other),
    }
    let none_chosen = DialogPage::ExportBookmarks(vec![a.clone()], vec![false], Some("/f".to_string()));
    assert!(dialog_view(&none_chosen).primary.is_none());
    let no_file = DialogPage::ImportBookmarks(vec![a.clone()], 0, None);
    assert!(dialog_view(&no_file).primary.is_none());
    let import = DialogPage::ImportBookmarks(vec![a], 0, Some("/f".to_string()));
    assert!(matches!(dialog_view(&import).primary, Some(ApplicationAction::PerformImportBookmarks(_))));
    assert!(matches!(export_toggle(&vec![false, false], 1, true),
        ApplicationAction::ExportBookmarksSelectAccounts(c) if c == vec![false, true]));
    assert!(matches!(export_toggle(&vec![false], 5, true),
        ApplicationAction::ExportBookmarksSelectAccounts(c) if c == vec![false]));
}

#[test]
fn progress_line() {
    let p = OperationProgress {
        operation_id: 9,
        total: 4,
        current: 0,
        operation_label: "importing-bookmarks".to_string(),
        cancellable: true,
    };
    let v = progress_view(&p);
    assert_eq!(v.text, "importing-bookmarks: 1 / 4");
    assert_eq!(v.cancel, Some(9));
}

#[test]
fn context_drawer_pages() {
    let mut config = CosmicConfig::default();
    config.app_theme = AppTheme::Light;
    let mut m = AppModel::new(config);
    assert!(m.context_drawer().is_none());
    m.toggle_context_page(ContextPage::Settings);
    match m.context_drawer() {
        Some(DrawerContent::Settings(s)) => {
            assert_eq!(s.theme_index, 2);
            assert_eq!((s.items_min, s.items_max, s.items_per_page), (5, 50, 10));
        }
        other => panic!("unexpected {:?}", other),
    }
    m.add_account_form();
    m.toggle_context_page(ContextPage::AddAccountForm);
    assert!(matches!(m.context_drawer(), Some(DrawerContent::AddAccount(_))));
}

#[test]
fn the_dialog_shown_is_the_first_queued() {
    let mut m = AppModel::new(CosmicConfig::default());
    assert!(m.dialog().is_none());
    let a = linkding_account(false);
    m.open_dialog(DialogPage::RemoveAccount(a.clone()));
    match m.dialog() {
        Some(v) => assert!(matches!(v.title, DialogTitle::Remove(ref n) if n == "home")),
        None => panic!("a dialog is queued"),
    }
    m.dialog_pages.push(DialogPage::PurgeFaviconsCache());
    assert!(matches!(m.dialog().unwrap().title, DialogTitle::Remove(_)));
    m.dialog_cancel();
    assert!(matches!(m.dialog().unwrap().title, DialogTitle::PurgeFaviconsCache));
}
