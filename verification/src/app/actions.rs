//! The messages that drive the application.
use vstd::prelude::*;

use crate::app::config::{AppTheme, CosmicConfig, SortOption};
use crate::app::context::ContextPage;
use crate::app::dialog::DialogPage;
use crate::models::account::{Account, LinkdingAccountApiResponse};
use crate::models::bookmarks::{
    Bookmark, BookmarkCheckDetailsResponse, BookmarkRemoveResponse, DetailedResponse,
};
use crate::models::provider::Provider;

verus! {

/// Where one bookmark of an import stands: the import it belongs to, how
/// many bookmarks the import holds, and its position among them.
#[derive(Debug, Clone, Copy, PartialEq, Eq, Structural)]
pub struct ImportAction {
    pub import_id: u64,
    pub total_count: usize,
    pub current_index: usize,
}

/// A message to the application. Messages that only the windowing toolkit
/// produces (key presses, animation ticks, closed notifications) are handled
/// where the toolkit lives; an edit in the description or notes editor
/// arrives as the editor's whole text.
#[derive(Debug, Clone)]
pub enum ApplicationAction {
    AccountsView(AccountsAction),
    AddAccountForm,
    AddBookmarkForm,
    AddBookmarkFormAccountIndex(usize),
    AppTheme(AppTheme),
    BookmarksView(BookmarksAction),
    CancelImportBookmarks(u64),
    CompleteRemoveDialog(Option<i64>, Option<Bookmark>),
    ContextClose,
    DecrementPageIndex(String),
    DialogCancel,
    DialogUpdate(DialogPage),
    DoneAddAccount(Account, Option<LinkdingAccountApiResponse>),
    DoneAddBookmark(
        Account,
        Option<BookmarkCheckDetailsResponse>,
        Option<ImportAction>,
        Vec<(Bookmark, ImportAction)>,
    ),
    DoneEditAccount(Account, Option<LinkdingAccountApiResponse>),
    DoneEditBookmark(Account, Option<BookmarkCheckDetailsResponse>),
    DoneFetchFaviconForBookmark(String, Vec<u8>),
    DoneImportBookmarks(usize),
    DoneRefreshAccountProfile(Account, Option<LinkdingAccountApiResponse>),
    DoneRefreshSingleAccount(DetailedResponse, Vec<Account>),
    DoneRemoveBookmark(Account, Bookmark, Option<BookmarkRemoveResponse>),
    EditAccountForm(Account),
    EditBookmarkForm(i64, Bookmark),
    Empty,
    EnableFavicons(bool),
    ExportBookmarksSelectAccounts(Vec<bool>),
    ImportBookmarksSelectAccount(usize),
    InputBookmarkDescription(String),
    InputBookmarkNotes(String),
    IncrementPageIndex(String),
    LoadAccounts,
    LoadBookmarks,
    OpenAccountsPage,
    OpenExternalUrl(String),
    OpenPurgeFaviconsCache,
    OpenRemoveAccountDialog(Account),
    OpenRemoveBookmarkDialog(i64, Bookmark),
    PerformExportBookmarks(Vec<Account>),
    PerformImportBookmarks(Account),
    PurgeFaviconsCache,
    RemoveAccount(Account),
    SearchActivate,
    SearchBookmarks(String),
    SelectExportPath,
    SelectImportPath,
    SetAccountAPIKey(String),
    SetAccountDisplayName(String),
    SetAccountInstance(String),
    SetAccountProvider(Provider),
    SetAccountStatus(bool),
    SetAccountTrustInvalidCertificates(bool),
    SetBookmarkArchived(bool),
    SetBookmarkShared(bool),
    SetBookmarkTags(String),
    SetBookmarkTitle(String),
    SetBookmarkURL(String),
    SetBookmarkUnread(bool),
    SetExportPath(Option<String>),
    SetImportPath(Option<String>),
    SetItemsPerPage(u8),
    SortOption(SortOption),
    StartAddAccount(Account),
    StartAddBookmark(Account, Bookmark, Option<ImportAction>, Vec<(Bookmark, ImportAction)>),
    StartEditAccount(Account),
    StartEditBookmark(Account, Bookmark),
    StartExportBookmarks,
    StartFetchFaviconForBookmark(Bookmark),
    StartImportBookmarks,
    StartRefreshAccountProfile(Account),
    StartRefreshBookmarksForAccount(Account),
    StartRefreshBookmarksForAllAccounts,
    StartRemoveBookmark(i64, Bookmark),
    StartupCompleted,
    SystemThemeModeChange,
    ToggleContextPage(ContextPage),
    UpdateConfig(CosmicConfig),
    ViewBookmarkNotes(Bookmark),
}

/// A message from the accounts page.
#[derive(Debug, Clone)]
pub enum AccountsAction {
    AddAccount,
    CancelImport(u64),
    DecrementPageIndex,
    DeleteAccount(Account),
    EditAccount(Account),
    IncrementPageIndex,
    OpenExternalURL(String),
    RefreshBookmarksForAccount(Account),
    ToggleAccountStatus(Account),
}

/// A message from the bookmarks page.
#[derive(Debug, Clone)]
pub enum BookmarksAction {
    AddBookmark,
    CancelImport(u64),
    ClearSearch,
    DecrementPageIndex,
    DeleteBookmark(i64, Bookmark),
    EditBookmark(i64, Bookmark),
    EmptyMessage,
    IncrementPageIndex,
    OpenAccountsPage,
    OpenExternalURL(String),
    RefreshBookmarks,
    SearchBookmarks(String),
    ViewNotes(Bookmark),
}

} // verus!
