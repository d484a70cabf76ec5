//! The application's state and how each message changes it. Every handler
//! takes what the message carries, together with whatever the caller read
//! from the database or the network for it, and returns the effects the
//! caller carries out: messages to handle next, notifications, writes to the
//! database and requests to providers.
use vstd::prelude::*;

use crate::app::actions::{ApplicationAction, ImportAction};
use crate::app::config::{AppTheme, CosmicConfig, SortOption};
use crate::app::context::ContextPage;
use crate::app::dialog::DialogPage;
use crate::app::nav::AppNavPage;
use crate::app::ApplicationState;
use crate::models::account::{Account, LinkdingAccountApiResponse};
use crate::models::bookmarks::{
    opt_text, Bookmark, BookmarkCheckDetailsResponse, BookmarkRemoveResponse, DetailedResponse,
};
use crate::models::db_cursor::{AccountsPaginationCursor, BookmarksPaginationCursor, Pagination};
use crate::models::favicon_cache::FaviconCache;
use crate::models::operation::OperationProgress;
use crate::models::provider::Provider;
use crate::models::sync_status::SyncStatus;
use crate::pages::accounts::PageAccountsView;
use crate::pages::bookmarks::PageBookmarksView;
use crate::provider::{get_provider_version, provider_version_spec};
use crate::provider::cosmicding::local_version;
use crate::models::db_cursor::BookmarksQuery;
use crate::utils::bookmark_parser::netscape::{
    netscape_document, parse_netscape_html, parse_result_matches, netscape_scan,
    BookmarkFormat, BookmarkIO,
};
use crate::text::{chars_of, join, split_char, split_exec, string_of, texts, trim, trim_exec};
use crate::utils::bookmark_parser::netscape::clean_tags;

verus! {

/// A notification for the user, by its message and the values it shows.
#[derive(Debug, Clone)]
pub enum Notice {
    AccountExists,
    AddedAccount(String),
    FailedToAddAccount(String, Option<String>),
    UpdatedAccount(String),
    DisabledAccount(String),
    FailedToEditAccount(String, Option<String>),
    RemovedAccount(String),
    RefreshedBookmarks,
    AddedBookmarkToAccount(String, String),
    UpdatedBookmarkInAccount(String, String),
    RemovedBookmarkFromAccount(String),
    Error(String),
    ExportNoPath,
    ImportError(String),
    ImportFileNotFound(String),
    ImportNoPath,
    ImportNoBookmarks,
    ImportStarted(usize),
    ImportFinished(usize),
}

/// Why the profile of an account is requested; the answer comes back as
/// `DoneAddAccount`, `DoneEditAccount` or `DoneRefreshAccountProfile`.
#[derive(Debug, Clone, Copy, PartialEq, Eq, Structural)]
pub enum ProfilePurpose {
    Add,
    Edit,
    Refresh,
}

/// Why a bookmark is sent to its provider: added, possibly as part of an
/// import with the bookmarks still to import (the answer comes back as
/// `DoneAddBookmark`), or edited (the answer comes back as
/// `DoneEditBookmark`).
#[derive(Debug, Clone)]
pub enum PopulatePurpose {
    Add(Option<ImportAction>, Vec<(Bookmark, ImportAction)>),
    Edit,
}

/// Work that a handler leaves to the caller, in order.
#[derive(Debug, Clone)]
pub enum Effect {
    /// Handle this message next.
    Then(ApplicationAction),
    /// Handle this message after the given number of milliseconds.
    After(u64, ApplicationAction),
    /// Show a notification.
    Notify(Notice),
    /// Count the stored accounts again (`Pagination::refresh_count`).
    RecountAccounts,
    /// Count the stored bookmarks again (`Pagination::refresh_count`).
    RecountBookmarks,
    /// Fetch the accounts cursor's page and show it (`show_accounts_page`).
    ReloadAccountsPage,
    /// Ask the user for the file to export to; the answer comes back as
    /// `SetExportPath`.
    ChooseExportPath,
    /// Ask the user for the file to import from; the answer comes back as
    /// `SetImportPath`.
    ChooseImportPath,
    /// Write the exported document to the file and tell the user how many
    /// bookmarks went there, or why it failed.
    WriteExport(String, String, usize),
    /// Store a new account.
    CreateAccount(Account),
    /// Store the account's new values.
    UpdateAccount(Account),
    /// Delete the account, its bookmarks and their cached favicons.
    DeleteAccount(i64),
    /// Store a new bookmark.
    AddBookmark(Bookmark),
    /// Store a bookmark's new values.
    UpdateBookmark(Bookmark),
    /// Delete a stored bookmark.
    DeleteBookmark(Bookmark),
    /// Merge the refreshed bookmarks of an account into the store.
    AggregateBookmarks(DetailedResponse),
    /// Store a fetched favicon.
    StoreFavicon(FaviconCache),
    /// Delete every cached favicon.
    PurgeFavicons,
    /// Request the account's profile.
    FetchAccountDetails(Account, ProfilePurpose),
    /// Refresh the account's bookmarks, then go on with the accounts left.
    FetchBookmarks(Account, Vec<Account>),
    /// Add or update a bookmark through the account's provider, whether to
    /// look for an existing bookmark with the URL first and whether to skip
    /// scraping the page; the answer comes back as the purpose says.
    Populate(Account, Bookmark, bool, bool, PopulatePurpose),
    /// Remove a bookmark through the account's provider.
    RemoveRemoteBookmark(Account, Bookmark),
    /// Fetch the favicon at the address.
    FetchFavicon(String),
    /// Refresh the bookmarks of the account listed last, once the accounts
    /// are loaded.
    RefreshLastListedAccount,
    /// Empty the editors of a new bookmark's notes and description.
    ClearBookmarkEditors,
    /// Fill the editors with a bookmark's notes and description.
    FillBookmarkEditors(String, String),
    /// Show the notes in the notes viewer.
    ShowNotes(String),
    /// Bring the accounts page forward.
    ActivateAccountsPage,
    /// Open an address in the browser.
    OpenUrl(String),
    /// Put the focus in the search field.
    FocusSearch,
    /// Save the settings.
    SaveConfig(CosmicConfig),
    /// Apply the theme of the settings.
    ApplyTheme(AppTheme),
}

/// The state of the application, apart from what belongs to the windowing
/// toolkit.
#[derive(Debug, Clone)]
pub struct AppModel {
    pub config: CosmicConfig,
    pub context_page: ContextPage,
    pub show_context: bool,
    pub dialog_pages: Vec<DialogPage>,
    pub context_account: Option<Account>,
    pub context_accounts_list: Vec<Account>,
    pub context_bookmark: Option<Bookmark>,
    pub context_selected_account_index: usize,
    pub accounts_cursor: AccountsPaginationCursor,
    pub accounts_view: PageAccountsView,
    pub bookmarks_cursor: BookmarksPaginationCursor,
    pub bookmarks_view: PageBookmarksView,
    pub state: ApplicationState,
    pub sync_status: SyncStatus,
    pub operation_progress: Option<OperationProgress>,
    pub nav_page: AppNavPage,
}

/// The model after asking for `page` in the context drawer: the page
/// already shown flips the drawer open or shut, another page replaces it in
/// an open drawer.
pub open spec fn toggled_context(m: AppModel, page: ContextPage) -> AppModel {
    if m.context_page == page {
        AppModel { show_context: !m.show_context, ..m }
    } else {
        AppModel { context_page: page, show_context: true, ..m }
    }
}

/// The page a cursor moves to when paging forward: the next one, unless it
/// stands on the last.
pub open spec fn page_after(current: usize, total: usize) -> usize {
    if current < total {
        (current + 1) as usize
    } else {
        current
    }
}

/// The page a cursor moves to when paging back: the previous one, unless it
/// stands on the first.
pub open spec fn page_before(current: usize) -> usize {
    if current > 1 {
        (current - 1) as usize
    } else {
        current
    }
}

impl AppModel {
    /// The state at start-up with the given settings: nothing loaded, no
    /// drawer or dialog open, both cursors on their first page with the
    /// configured page size, and no enabled remote account known yet.
    pub fn new(config: CosmicConfig) -> (res: AppModel)
        ensures
            res.config == config,
            res.context_page == ContextPage::Settings,
            !res.show_context,
            res.dialog_pages@.len() == 0,
            res.context_account is None,
            res.context_accounts_list@.len() == 0,
            res.context_bookmark is None,
            res.context_selected_account_index == 0,
            res.accounts_cursor.current_page == 1,
            res.accounts_cursor.items_per_page == config.items_per_page,
            res.bookmarks_cursor.current_page == 1,
            res.bookmarks_cursor.items_per_page == config.items_per_page,
            res.bookmarks_cursor.search_query is None,
            res.accounts_view.accounts@.len() == 0,
            res.bookmarks_view.bookmarks@.len() == 0,
            res.state == ApplicationState::NoEnabledRemoteAccounts,
            res.sync_status == SyncStatus::Unsynced,
            res.operation_progress is None,
            res.nav_page == AppNavPage::BookmarksView,
    {
        let mut accounts_cursor = AccountsPaginationCursor::new();
        accounts_cursor.items_per_page = config.items_per_page;
        let mut bookmarks_cursor = BookmarksPaginationCursor::new();
        bookmarks_cursor.items_per_page = config.items_per_page;
        AppModel {
            config,
            context_page: ContextPage::Settings,
            show_context: false,
            dialog_pages: Vec::new(),
            context_account: None,
            context_accounts_list: Vec::new(),
            context_bookmark: None,
            context_selected_account_index: 0,
            accounts_cursor,
            accounts_view: PageAccountsView::default(),
            bookmarks_cursor,
            bookmarks_view: PageBookmarksView::default(),
            state: ApplicationState::NoEnabledRemoteAccounts,
            sync_status: SyncStatus::Unsynced,
            operation_progress: None,
            nav_page: AppNavPage::BookmarksView,
        }
    }

    /// Shows a page in the context drawer: the page already shown flips the
    /// drawer open or shut, another page replaces it in an open drawer.
    pub fn toggle_context_page(&mut self, page: ContextPage)
        ensures
            *final(self) == toggled_context(*old(self), page),
    {
        if self.context_page == page {
            self.show_context = !self.show_context;
        } else {
            self.context_page = page;
            self.show_context = true;
        }
    }

    /// Escape closes the dialog shown, if any; otherwise it shuts the
    /// context drawer.
    pub fn on_escape(&mut self)
        ensures
            old(self).dialog_pages@.len() > 0 ==> *final(self) == (AppModel {
                dialog_pages: final(self).dialog_pages,
                ..*old(self)
            }) && final(self).dialog_pages@ == old(self).dialog_pages@.skip(1),
            old(self).dialog_pages@.len() == 0 ==> *final(self) == (AppModel {
                show_context: false,
                ..*old(self)
            }),
    {
        if self.dialog_pages.len() > 0 {
            self.dialog_pages.remove(0);
            assert(self.dialog_pages@ =~= old(self).dialog_pages@.skip(1));
        } else {
            self.show_context = false;
        }
    }

    /// Shuts the context drawer.
    pub fn context_close(&mut self)
        ensures
            *final(self) == (AppModel { show_context: false, ..*old(self) }),
    {
        self.show_context = false;
    }

    /// Opens the form for a new account: an empty linkding account.
    pub fn add_account_form(&mut self) -> (effects: Vec<Effect>)
        ensures
            final(self).context_account matches Some(a) && a.display_name@.len() == 0
                && a.api_token@.len() == 0 && a.instance@.len() == 0 && a.provider
                == Provider::Linkding && a.enabled && a.id is None,
            effects@ == seq![
                Effect::Then(ApplicationAction::ToggleContextPage(ContextPage::AddAccountForm)),
            ],
            final(self).state == old(self).state,
            final(self).dialog_pages == old(self).dialog_pages,
    {
        self.context_account = Some(Account::new(String::new(), String::new(), String::new()));
        vec![Effect::Then(ApplicationAction::ToggleContextPage(ContextPage::AddAccountForm))]
    }

    /// Opens the form for editing an account.
    pub fn edit_account_form(&mut self, account: Account) -> (effects: Vec<Effect>)
        ensures
            *final(self) == (AppModel { context_account: Some(account), ..*old(self) }),
            effects@ == seq![
                Effect::Then(ApplicationAction::ToggleContextPage(ContextPage::EditAccountForm)),
            ],
    {
        self.context_account = Some(account);
        vec![Effect::Then(ApplicationAction::ToggleContextPage(ContextPage::EditAccountForm))]
    }

    /// Applies an edit to the account in the form, if one is open.
    pub fn edit_context_account(&mut self, field: AccountField)
        ensures
            final(self).context_account == match old(self).context_account {
                Some(a) => Some(field.apply_spec(a)),
                None => None::<Account>,
            },
            *final(self) == (AppModel {
                context_account: final(self).context_account,
                ..*old(self)
            }),
    {
        match self.context_account.take() {
            Some(a) => {
                self.context_account = Some(field.apply(a));
            },
            None => {},
        }
    }

    /// Applies an edit to the bookmark in the form, if one is open.
    pub fn edit_context_bookmark(&mut self, field: BookmarkField)
        ensures
            final(self).context_bookmark == match old(self).context_bookmark {
                Some(b) => Some(field.apply_spec(b)),
                None => None::<Bookmark>,
            },
            *final(self) == (AppModel {
                context_bookmark: final(self).context_bookmark,
                ..*old(self)
            }),
    {
        match self.context_bookmark.take() {
            Some(b) => {
                self.context_bookmark = Some(field.apply(b));
            },
            None => {},
        }
    }

    /// Chooses the account a new bookmark goes to, by its position in the
    /// form's list.
    pub fn select_form_account(&mut self, index: usize)
        ensures
            *final(self) == (AppModel { context_selected_account_index: index, ..*old(self) }),
    {
        self.context_selected_account_index = index;
    }
}

/// An edit of one field of the account form.
#[derive(Debug, Clone)]
pub enum AccountField {
    DisplayName(String),
    Instance(String),
    ApiToken(String),
    Enabled(bool),
    TrustInvalidCertificates(bool),
    Provider(Provider),
}

impl AccountField {
    /// The account with the field changed.
    pub open spec fn apply_spec(self, a: Account) -> Account {
        match self {
            AccountField::DisplayName(v) => Account { display_name: v, ..a },
            AccountField::Instance(v) => Account { instance: v, ..a },
            AccountField::ApiToken(v) => Account { api_token: v, ..a },
            AccountField::Enabled(v) => Account { enabled: v, ..a },
            AccountField::TrustInvalidCertificates(v) => Account { trust_invalid_certs: v, ..a },
            AccountField::Provider(p) => Account { provider: p, ..a },
        }
    }

    /// The account with the field changed.
    pub fn apply(self, a: Account) -> (res: Account)
        ensures
            res == self.apply_spec(a),
    {
        let mut a = a;
        match self {
            AccountField::DisplayName(v) => a.display_name = v,
            AccountField::Instance(v) => a.instance = v,
            AccountField::ApiToken(v) => a.api_token = v,
            AccountField::Enabled(v) => a.enabled = v,
            AccountField::TrustInvalidCertificates(v) => a.trust_invalid_certs = v,
            AccountField::Provider(p) => a.set_provider(p),
        }
        a
    }
}

/// An edit of one field of the bookmark form.
#[derive(Debug, Clone)]
pub enum BookmarkField {
    Url(String),
    Title(String),
    Notes(String),
    Description(String),
    Tags(Vec<String>),
    Archived(bool),
    Unread(bool),
    Shared(bool),
}

impl BookmarkField {
    /// The bookmark with the field changed.
    pub open spec fn apply_spec(self, b: Bookmark) -> Bookmark {
        match self {
            BookmarkField::Url(v) => Bookmark { url: v, ..b },
            BookmarkField::Title(v) => Bookmark { title: v, ..b },
            BookmarkField::Notes(v) => Bookmark { notes: v, ..b },
            BookmarkField::Description(v) => Bookmark { description: v, ..b },
            BookmarkField::Tags(v) => Bookmark { tag_names: v, ..b },
            BookmarkField::Archived(v) => Bookmark { is_archived: v, ..b },
            BookmarkField::Unread(v) => Bookmark { unread: v, ..b },
            BookmarkField::Shared(v) => Bookmark { shared: v, ..b },
        }
    }

    /// The bookmark with the field changed.
    pub fn apply(self, b: Bookmark) -> (res: Bookmark)
        ensures
            res == self.apply_spec(b),
    {
        let mut b = b;
        match self {
            BookmarkField::Url(v) => b.url = v,
            BookmarkField::Title(v) => b.title = v,
            BookmarkField::Notes(v) => b.notes = v,
            BookmarkField::Description(v) => b.description = v,
            BookmarkField::Tags(v) => b.tag_names = v,
            BookmarkField::Archived(v) => b.is_archived = v,
            BookmarkField::Unread(v) => b.unread = v,
            BookmarkField::Shared(v) => b.shared = v,
        }
        b
    }
}

// ---------------------------------------------------------------------------
// tags
// ---------------------------------------------------------------------------

/// The tags typed into the bookmark form: nothing for an empty text, else
/// the pieces between single spaces, empty pieces included.
pub open spec fn tags_from_input_spec(s: Seq<char>) -> Seq<Seq<char>> {
    if s.len() == 0 {
        seq![]
    } else {
        split_char(s, ' ')
    }
}

/// The tags typed into the bookmark form.
pub fn tags_from_input(s: &str) -> (res: Vec<String>)
    ensures
        texts(res@) == tags_from_input_spec(s@),
{
    let v = chars_of(s);
    if v.len() == 0 {
        let res: Vec<String> = Vec::new();
        assert(texts(res@) =~= Seq::<Seq<char>>::empty());
        res
    } else {
        split_exec(&v, ' ')
    }
}

/// The tags a bookmark is sent with: each one trimmed, the empty ones left
/// out.
pub fn normalize_tags(tags: Vec<String>) -> (res: Vec<String>)
    ensures
        texts(res@) == clean_tags(texts(tags@)),
{
    let mut res: Vec<String> = Vec::new();
    let mut i: usize = 0;
    let ghost all = texts(tags@);
    assert(all.skip(0) =~= all);
    while i < tags.len()
        invariant
            i <= tags@.len(),
            all == texts(tags@),
            clean_tags(all) == texts(res@) + clean_tags(all.skip(i as int)),
        decreases tags.len() - i,
    {
        let trimmed = trim_exec(&chars_of(tags[i].as_str()));
        proof {
            assert(all.skip(i as int).skip(1) =~= all.skip(i + 1));
            assert(all.skip(i as int)[0] == tags@[i as int]@);
        }
        if trimmed.len() > 0 {
            res.push(string_of(&trimmed));
            proof {
                assert(texts(res@) =~= texts(res@.drop_last()).push(trimmed@));
            }
        }
        i += 1;
    }
    proof {
        assert(all.skip(i as int).len() == 0);
        assert(texts(res@) + Seq::<Seq<char>>::empty() =~= texts(res@));
    }
    res
}

// ---------------------------------------------------------------------------
// accounts
// ---------------------------------------------------------------------------

/// `a` and `b` hold the same values, texts compared by their characters.
pub open spec fn account_same(a: Account, b: Account) -> bool {
    &&& a.api_token@ == b.api_token@
    &&& a.display_name@ == b.display_name@
    &&& a.enable_public_sharing == b.enable_public_sharing
    &&& a.enable_sharing == b.enable_sharing
    &&& a.enabled == b.enabled
    &&& a.id == b.id
    &&& a.instance@ == b.instance@
    &&& a.last_sync_status == b.last_sync_status
    &&& a.last_sync_timestamp == b.last_sync_timestamp
    &&& a.trust_invalid_certs == b.trust_invalid_certs
    &&& a.provider == b.provider
    &&& match (a.provider_version, b.provider_version) {
        (Some(x), Some(y)) => x@ == y@,
        (None, None) => true,
        _ => false,
    }
}

fn same_text(a: &String, b: &String) -> (res: bool)
    ensures
        res == (a@ == b@),
{
    (*a).eq(b)
}

/// Whether two accounts hold the same values.
pub fn accounts_equal(a: &Account, b: &Account) -> (res: bool)
    ensures
        res == account_same(*a, *b),
{
    let versions = match (&a.provider_version, &b.provider_version) {
        (Some(x), Some(y)) => same_text(x, y),
        (None, None) => true,
        _ => false,
    };
    same_text(&a.api_token, &b.api_token) && same_text(&a.display_name, &b.display_name)
        && a.enable_public_sharing == b.enable_public_sharing && a.enable_sharing
        == b.enable_sharing && a.enabled == b.enabled && a.id == b.id && same_text(
        &a.instance,
        &b.instance,
    ) && a.last_sync_status == b.last_sync_status && a.last_sync_timestamp
        == b.last_sync_timestamp && a.trust_invalid_certs == b.trust_invalid_certs && a.provider
        == b.provider && versions
}

/// `res` is `account` with the provider version that `response` gives it.
pub open spec fn with_version(
    res: Account,
    account: Account,
    response: Option<&LinkdingAccountApiResponse>,
) -> bool {
    &&& res == Account { provider_version: res.provider_version, ..account }
    &&& match res.provider_version {
        Some(v) => provider_version_spec(account.provider, response) == Some(v@),
        None => provider_version_spec(account.provider, response) is None,
    }
}

fn set_version(account: Account, response: Option<&LinkdingAccountApiResponse>) -> (res: Account)
    ensures
        with_version(res, account, response),
{
    let mut account = account;
    account.provider_version = get_provider_version(account.provider, response);
    account
}

impl AppModel {
    /// Adds an account from the form, unless one with the same instance and
    /// token is stored already (`exists`): then the user is told so;
    /// otherwise the account's profile is requested.
    pub fn start_add_account(&mut self, account: Account, exists: bool) -> (effects: Vec<Effect>)
        ensures
            *final(self) == *old(self),
            effects@ == (if exists {
                seq![Effect::Notify(Notice::AccountExists)]
            } else {
                seq![Effect::FetchAccountDetails(account, ProfilePurpose::Add)]
            }),
    {
        if exists {
            vec![Effect::Notify(Notice::AccountExists)]
        } else {
            vec![Effect::FetchAccountDetails(account, ProfilePurpose::Add)]
        }
    }

    /// Takes the profile requested for a new account. Without an error the
    /// account is stored with the provider version of the profile, the
    /// accounts are loaded again, the new account is refreshed and the user
    /// is told; with an error the user is told why. The drawer shuts.
    pub fn done_add_account(
        &mut self,
        account: Account,
        response: Option<LinkdingAccountApiResponse>,
    ) -> (effects: Vec<Effect>)
        ensures
            *final(self) == (AppModel { show_context: false, ..*old(self) }),
            match response {
                None => effects@.len() == 0,
                Some(r) => if r.error is None {
                    &&& effects@.len() == 4
                    &&& effects@[0] matches Effect::CreateAccount(a) && with_version(
                        a,
                        account,
                        Some(&r),
                    )
                    &&& effects@[1] == Effect::Then(ApplicationAction::LoadAccounts)
                    &&& effects@[2] == Effect::RefreshLastListedAccount
                    &&& effects@[3] == Effect::Notify(Notice::AddedAccount(account.display_name))
                } else {
                    effects@ == seq![
                        Effect::Notify(Notice::FailedToAddAccount(account.display_name, r.error)),
                    ]
                },
            },
    {
        self.show_context = false;
        match response {
            None => Vec::new(),
            Some(r) => {
                if r.error.is_none() {
                    let name = account.display_name.clone();
                    let stored = set_version(account, Some(&r));
                    vec![
                        Effect::CreateAccount(stored),
                        Effect::Then(ApplicationAction::LoadAccounts),
                        Effect::RefreshLastListedAccount,
                        Effect::Notify(Notice::AddedAccount(name)),
                    ]
                } else {
                    vec![
                        Effect::Notify(Notice::FailedToAddAccount(account.display_name, r.error)),
                    ]
                }
            },
        }
    }

    /// Saves an edited account: an enabled account's profile is requested
    /// first; a disabled one is saved without it. The drawer shuts.
    pub fn start_edit_account(&mut self, account: Account) -> (effects: Vec<Effect>)
        ensures
            *final(self) == (AppModel { show_context: false, ..*old(self) }),
            effects@ == (if account.enabled {
                seq![Effect::FetchAccountDetails(account, ProfilePurpose::Edit)]
            } else {
                seq![Effect::Then(ApplicationAction::DoneEditAccount(account, None))]
            }),
    {
        self.show_context = false;
        if account.enabled {
            vec![Effect::FetchAccountDetails(account, ProfilePurpose::Edit)]
        } else {
            vec![Effect::Then(ApplicationAction::DoneEditAccount(account, None))]
        }
    }

    /// Takes the profile requested for an edited account, with the account
    /// as stored (`current`). With a profile without error, the account takes
    /// its sharing settings and provider version; if it then differs from the
    /// stored one it is saved, the user is told, the accounts are loaded
    /// again, and its bookmarks are refreshed when the change concerns the
    /// remote side. With an error the user is told why. Without a profile (a
    /// disabled account), a local account takes the library's version, and
    /// a changed account is saved, the user is told it is disabled, the
    /// accounts are loaded again and its bookmarks refreshed.
    pub fn done_edit_account(
        &mut self,
        account: Account,
        response: Option<LinkdingAccountApiResponse>,
        current: &Account,
    ) -> (effects: Vec<Effect>)
        ensures
            *final(self) == *old(self),
            match response {
                Some(r) => if r.error is None {
                    let edited = Account {
                        enable_public_sharing: r.enable_public_sharing,
                        enable_sharing: r.enable_sharing,
                        ..account
                    };
                    if effects@.len() == 0 {
                        exists|a: Account|
                            with_version(a, edited, Some(&r)) && account_same(*current, a)
                    } else {
                        &&& effects@[0] matches Effect::UpdateAccount(a) && with_version(
                            a,
                            edited,
                            Some(&r),
                        ) && !account_same(*current, a) && effects@ == seq![
                            Effect::UpdateAccount(a),
                            Effect::Notify(Notice::UpdatedAccount(account.display_name)),
                            Effect::Then(ApplicationAction::LoadAccounts),
                        ] + (if a.requires_remote_sync_spec(current) {
                            seq![Effect::Then(ApplicationAction::StartRefreshBookmarksForAccount(a))]
                        } else {
                            seq![]
                        })
                    }
                } else {
                    effects@ == seq![
                        Effect::Notify(Notice::FailedToEditAccount(account.display_name, r.error)),
                    ]
                },
                None => exists|saved: Account|
                    {
                        &&& (if account.provider == Provider::Cosmicding {
                            with_version(saved, account, None)
                        } else {
                            saved == account
                        })
                        &&& if account_same(*current, saved) {
                            effects@.len() == 0
                        } else {
                            effects@ == seq![
                                Effect::UpdateAccount(saved),
                                Effect::Notify(Notice::DisabledAccount(account.display_name)),
                                Effect::Then(ApplicationAction::LoadAccounts),
                                Effect::Then(
                                    ApplicationAction::StartRefreshBookmarksForAccount(saved),
                                ),
                            ]
                        }
                    },
            },
    {
        let name = account.display_name.clone();
        match response {
            Some(r) => {
                if r.error.is_none() {
                    let mut edited = account;
                    edited.enable_public_sharing = r.enable_public_sharing;
                    edited.enable_sharing = r.enable_sharing;
                    let edited = set_version(edited, Some(&r));
                    if !accounts_equal(current, &edited) {
                        let sync = edited.requires_remote_sync(current);
                        let mut effects = vec![
                            Effect::UpdateAccount(edited.duplicate()),
                            Effect::Notify(Notice::UpdatedAccount(name)),
                            Effect::Then(ApplicationAction::LoadAccounts),
                        ];
                        let ghost first = effects@;
                        if sync {
                            effects.push(
                                Effect::Then(ApplicationAction::StartRefreshBookmarksForAccount(
                                    edited,
                                )),
                            );
                            assert(effects@ =~= first + seq![
                                Effect::Then(ApplicationAction::StartRefreshBookmarksForAccount(
                                    edited,
                                )),
                            ]);
                        } else {
                            assert(effects@ =~= first + Seq::<Effect>::empty());
                        }
                        effects
                    } else {
                        assert(with_version(edited, Account {
                            enable_public_sharing: r.enable_public_sharing,
                            enable_sharing: r.enable_sharing,
                            ..account
                        }, Some(&r)));
                        Vec::new()
                    }
                } else {
                    vec![Effect::Notify(Notice::FailedToEditAccount(name, r.error))]
                }
            },
            None => {
                let saved = if account.is_local_provider() {
                    set_version(account, None)
                } else {
                    account
                };
                if !accounts_equal(current, &saved) {
                    vec![
                        Effect::UpdateAccount(saved.duplicate()),
                        Effect::Notify(Notice::DisabledAccount(name)),
                        Effect::Then(ApplicationAction::LoadAccounts),
                        Effect::Then(ApplicationAction::StartRefreshBookmarksForAccount(saved)),
                    ]
                } else {
                    Vec::new()
                }
            },
        }
    }
}

// ---------------------------------------------------------------------------
// refreshing
// ---------------------------------------------------------------------------

/// The accounts whose bookmarks a refresh of all accounts fetches: the
/// enabled remote ones, in order.
pub open spec fn enabled_remote(s: Seq<Account>) -> Seq<Account>
    decreases s.len(),
{
    if s.len() == 0 {
        seq![]
    } else {
        let r = enabled_remote(s.drop_last());
        if s.last().enabled && s.last().provider == Provider::Linkding {
            r.push(s.last())
        } else {
            r
        }
    }
}

/// Whether any account is enabled and remote.
pub open spec fn any_enabled_remote(s: Seq<Account>) -> bool {
    exists|i: int| 0 <= i < s.len() && s[i].enabled && s[i].provider == Provider::Linkding
}

/// The message of a running refresh, `refreshing-accounts`.
pub open spec fn refreshing_label() -> Seq<char> {
    "refreshing-accounts"@
}

/// A refresh's progress agrees with the accounts still queued: the one
/// being fetched and those left make up what is not yet counted.
pub open spec fn refresh_progress_matches(p: OperationProgress, queued: nat) -> bool {
    p.current + queued + 1 == p.total
}

fn refresh_progress(total: usize) -> (res: OperationProgress)
    ensures
        res.operation_id == 0,
        res.total == total,
        res.current == 0,
        res.operation_label@ == refreshing_label(),
        !res.cancellable,
{
    OperationProgress {
        operation_id: 0,
        total,
        current: 0,
        operation_label: string_of(&chars_of("refreshing-accounts")),
        cancellable: false,
    }
}

fn collect_enabled_remote(accounts: &Vec<Account>) -> (res: Vec<Account>)
    ensures
        res@ == enabled_remote(accounts@),
        (res@.len() > 0) == any_enabled_remote(accounts@),
{
    let mut res: Vec<Account> = Vec::new();
    let mut i: usize = 0;
    while i < accounts.len()
        invariant
            i <= accounts@.len(),
            res@ == enabled_remote(accounts@.take(i as int)),
            (res@.len() > 0) == any_enabled_remote(accounts@.take(i as int)),
        decreases accounts.len() - i,
    {
        let ghost prefix = accounts@.take(i + 1);
        proof {
            assert(prefix.drop_last() =~= accounts@.take(i as int));
            assert(prefix.last() == accounts@[i as int]);
        }
        if accounts[i].enabled && !accounts[i].is_local_provider() {
            res.push(accounts[i].duplicate());
            proof {
                assert(prefix[i as int] == accounts@[i as int]);
            }
        } else {
            proof {
                if any_enabled_remote(prefix) {
                    let j = choose|j: int|
                        0 <= j < prefix.len() && prefix[j].enabled && prefix[j].provider
                            == Provider::Linkding;
                    assert(j < i);
                    assert(accounts@.take(i as int)[j] == prefix[j]);
                }
            }
        }
        proof {
            if any_enabled_remote(accounts@.take(i as int)) {
                let j = choose|j: int|
                    0 <= j < i && accounts@.take(i as int)[j].enabled && accounts@.take(
                        i as int,
                    )[j].provider == Provider::Linkding;
                assert(prefix[j] == accounts@.take(i as int)[j]);
            }
        }
        i += 1;
    }
    proof {
        assert(accounts@.take(accounts@.len() as int) =~= accounts@);
    }
    res
}

impl AppModel {
    /// Refreshes the bookmarks of all enabled remote accounts, one after the
    /// other, unless there are no accounts or a refresh is running. Without
    /// an enabled remote account the application notes so and only reloads
    /// the bookmarks; otherwise it is refreshing, counts its progress over
    /// those accounts, and fetches the first, queueing the others.
    pub fn start_refresh_all(&mut self) -> (effects: Vec<Effect>)
        ensures
            old(self).accounts_view.accounts@.len() == 0 || old(self).state
                == ApplicationState::Refreshing ==> *final(self) == *old(self) && effects@.len()
                == 0,
            old(self).accounts_view.accounts@.len() > 0 && old(self).state
                != ApplicationState::Refreshing ==> {
                let er = enabled_remote(old(self).accounts_view.accounts@);
                if er.len() == 0 {
                    &&& *final(self) == AppModel {
                        state: ApplicationState::NoEnabledRemoteAccounts,
                        ..*old(self)
                    }
                    &&& effects@ == seq![Effect::Then(ApplicationAction::LoadBookmarks)]
                } else {
                    &&& *final(self) == AppModel {
                        state: ApplicationState::Refreshing,
                        operation_progress: final(self).operation_progress,
                        ..*old(self)
                    }
                    &&& final(self).operation_progress matches Some(p) && p.operation_id == 0
                        && p.total == er.len() && p.current == 0 && p.operation_label@
                        == refreshing_label() && !p.cancellable
                    &&& effects@.len() == 1
                    &&& effects@[0] matches Effect::FetchBookmarks(first, rest) && first == er[0]
                        && rest@ == er.skip(1)
                    &&& refresh_progress_matches(
                        final(self).operation_progress->0,
                        (er.len() - 1) as nat,
                    )
                }
            },
    {
        if self.accounts_view.accounts.len() == 0 || self.state == ApplicationState::Refreshing {
            return Vec::new();
        }
        let mut enabled = collect_enabled_remote(&self.accounts_view.accounts);
        if enabled.len() == 0 {
            self.state = ApplicationState::NoEnabledRemoteAccounts;
            vec![Effect::Then(ApplicationAction::LoadBookmarks)]
        } else {
            self.state = ApplicationState::Refreshing;
            self.operation_progress = Some(refresh_progress(enabled.len()));
            let ghost er = enabled@;
            let first = enabled.remove(0);
            assert(enabled@ =~= er.skip(1));
            vec![Effect::FetchBookmarks(first, enabled)]
        }
    }

    /// Takes the refreshed bookmarks of one account and the accounts still
    /// queued. The bookmarks are always merged into the store. During a
    /// counted refresh the progress advances; when no account is left the
    /// refresh ends: the application is ready, the synchronisation
    /// successful, accounts and bookmarks are reloaded and the user is told;
    /// otherwise the next queued account is fetched.
    pub fn done_refresh_single(&mut self, response: DetailedResponse, remaining: Vec<Account>) -> (effects:
        Vec<Effect>)
        requires
            old(self).operation_progress matches Some(p) ==> p.current < usize::MAX,
        ensures
            effects@.len() >= 1,
            effects@[0] == Effect::AggregateBookmarks(response),
            match old(self).operation_progress {
                None => *final(self) == *old(self) && effects@.len() == 1,
                Some(p) => if remaining@.len() == 0 {
                    &&& *final(self) == AppModel {
                        operation_progress: None,
                        state: ApplicationState::Ready,
                        sync_status: SyncStatus::Successful,
                        ..*old(self)
                    }
                    &&& effects@ == seq![
                        Effect::AggregateBookmarks(response),
                        Effect::Then(ApplicationAction::LoadAccounts),
                        Effect::Then(ApplicationAction::LoadBookmarks),
                        Effect::Notify(Notice::RefreshedBookmarks),
                    ]
                } else {
                    &&& *final(self) == AppModel {
                        operation_progress: Some(
                            OperationProgress { current: (p.current + 1) as usize, ..p },
                        ),
                        ..*old(self)
                    }
                    &&& effects@.len() == 2
                    &&& effects@[1] matches Effect::FetchBookmarks(next, rest) && next
                        == remaining@[0] && rest@ == remaining@.skip(1)
                    &&& refresh_progress_matches(p, remaining@.len()) ==> refresh_progress_matches(
                        final(self).operation_progress->0,
                        (remaining@.len() - 1) as nat,
                    )
                },
            },
    {
        let mut effects = vec![Effect::AggregateBookmarks(response)];
        match self.operation_progress.take() {
            None => {},
            Some(p) => {
                let mut p = p;
                if remaining.len() == 0 {
                    self.state = ApplicationState::Ready;
                    self.sync_status = SyncStatus::Successful;
                    effects.push(Effect::Then(ApplicationAction::LoadAccounts));
                    effects.push(Effect::Then(ApplicationAction::LoadBookmarks));
                    effects.push(Effect::Notify(Notice::RefreshedBookmarks));
                } else {
                    p.advance();
                    self.operation_progress = Some(p);
                    let mut rest = remaining;
                    let ghost all = rest@;
                    let next = rest.remove(0);
                    assert(rest@ =~= all.skip(1));
                    effects.push(Effect::FetchBookmarks(next, rest));
                }
            },
        }
        effects
    }

    /// Refreshes one account's bookmarks and profile, unless a refresh is
    /// running. For a disabled account nothing is fetched: without any
    /// enabled remote account the application notes so, and the bookmarks
    /// are reloaded.
    pub fn start_refresh_account(&mut self, account: Account) -> (effects: Vec<Effect>)
        ensures
            old(self).state == ApplicationState::Refreshing ==> *final(self) == *old(self)
                && effects@.len() == 0,
            old(self).state != ApplicationState::Refreshing && account.enabled ==> {
                &&& *final(self) == AppModel {
                    state: ApplicationState::Refreshing,
                    operation_progress: final(self).operation_progress,
                    ..*old(self)
                }
                &&& final(self).operation_progress matches Some(p) && p.operation_id == 0 && p.total
                    == 1 && p.current == 0 && p.operation_label@ == refreshing_label()
                    && !p.cancellable
                &&& effects@.len() == 2
                &&& effects@[0] == Effect::Then(ApplicationAction::StartRefreshAccountProfile(account))
                &&& effects@[1] matches Effect::FetchBookmarks(a, rest) && a == account
                    && rest@.len() == 0
            },
            old(self).state != ApplicationState::Refreshing && !account.enabled ==> {
                &&& *final(self) == (if any_enabled_remote(old(self).accounts_view.accounts@) {
                    *old(self)
                } else {
                    AppModel { state: ApplicationState::NoEnabledRemoteAccounts, ..*old(self) }
                })
                &&& effects@ == seq![Effect::Then(ApplicationAction::LoadBookmarks)]
            },
    {
        if self.state == ApplicationState::Refreshing {
            Vec::new()
        } else if account.enabled {
            self.state = ApplicationState::Refreshing;
            self.operation_progress = Some(refresh_progress(1));
            let profile = account.duplicate();
            vec![
                Effect::Then(ApplicationAction::StartRefreshAccountProfile(profile)),
                Effect::FetchBookmarks(account, Vec::new()),
            ]
        } else {
            let enabled = collect_enabled_remote(&self.accounts_view.accounts);
            if enabled.len() == 0 {
                self.state = ApplicationState::NoEnabledRemoteAccounts;
            }
            vec![Effect::Then(ApplicationAction::LoadBookmarks)]
        }
    }

    /// Requests an enabled account's profile, unless a refresh is running.
    pub fn start_refresh_profile(&mut self, account: Account) -> (effects: Vec<Effect>)
        ensures
            old(self).state != ApplicationState::Refreshing && account.enabled ==> *final(self)
                == (AppModel { state: ApplicationState::Refreshing, ..*old(self) }) && effects@
                == seq![Effect::FetchAccountDetails(account, ProfilePurpose::Refresh)],
            !(old(self).state != ApplicationState::Refreshing && account.enabled) ==> *final(self)
                == *old(self) && effects@.len() == 0,
    {
        if self.state != ApplicationState::Refreshing && account.enabled {
            self.state = ApplicationState::Refreshing;
            vec![Effect::FetchAccountDetails(account, ProfilePurpose::Refresh)]
        } else {
            Vec::new()
        }
    }

    /// Takes a refreshed profile: a successful one gives the account its
    /// sharing settings, which are saved, and the accounts are reloaded. The
    /// application then waits for the bookmarks to load.
    pub fn done_refresh_profile(
        &mut self,
        account: Account,
        response: Option<LinkdingAccountApiResponse>,
    ) -> (effects: Vec<Effect>)
        requires
            response matches Some(r) ==> r.successful is Some,
        ensures
            *final(self) == (AppModel {
                state: ApplicationState::Loading,
                sync_status: SyncStatus::InProgress,
                ..*old(self)
            }),
            effects@ == (match response {
                Some(r) => if r.successful == Some(true) {
                    seq![
                        Effect::UpdateAccount(
                            Account {
                                enable_sharing: r.enable_sharing,
                                enable_public_sharing: r.enable_public_sharing,
                                ..account
                            },
                        ),
                        Effect::Then(ApplicationAction::LoadAccounts),
                    ]
                } else {
                    seq![]
                },
                None => seq![],
            }),
    {
        let mut effects = Vec::new();
        match response {
            Some(r) => {
                if r.successful.unwrap() {
                    let mut account = account;
                    account.enable_sharing = r.enable_sharing;
                    account.enable_public_sharing = r.enable_public_sharing;
                    effects.push(Effect::UpdateAccount(account));
                    effects.push(Effect::Then(ApplicationAction::LoadAccounts));
                }
            },
            None => {},
        }
        self.state = ApplicationState::Loading;
        self.sync_status = SyncStatus::InProgress;
        effects
    }
}

// ---------------------------------------------------------------------------
// bookmarks
// ---------------------------------------------------------------------------

/// The accounts of `s` that are local (`local`) or remote, in order.
pub open spec fn accounts_where(s: Seq<Account>, local: bool) -> Seq<Account>
    decreases s.len(),
{
    if s.len() == 0 {
        seq![]
    } else {
        let r = accounts_where(s.drop_last(), local);
        if (s.last().provider == Provider::Cosmicding) == local {
            r.push(s.last())
        } else {
            r
        }
    }
}

/// The accounts offered for a new bookmark: the remote ones first, then the
/// local ones, each group in its stored order.
pub open spec fn remote_first(s: Seq<Account>) -> Seq<Account> {
    accounts_where(s, false) + accounts_where(s, true)
}

/// The accounts listed on the accounts page: the local ones first, then the
/// remote ones, each group in its stored order.
pub open spec fn local_first(s: Seq<Account>) -> Seq<Account> {
    accounts_where(s, true) + accounts_where(s, false)
}

fn select_accounts(s: Vec<Account>, local: bool) -> (res: (Vec<Account>, Vec<Account>))
    ensures
        res.0@ == accounts_where(s@, local),
        res.1@ == accounts_where(s@, !local),
{
    let ghost all = s@;
    let mut chosen: Vec<Account> = Vec::new();
    let mut others: Vec<Account> = Vec::new();
    let mut rest = s;
    let mut i: usize = 0;
    let n = rest.len();
    while i < n
        invariant
            n == all.len(),
            i <= n,
            rest@ == all.skip(i as int),
            chosen@ == accounts_where(all.take(i as int), local),
            others@ == accounts_where(all.take(i as int), !local),
        decreases n - i,
    {
        let a = rest.remove(0);
        let ghost prefix = all.take(i + 1);
        proof {
            assert(a == all[i as int]);
            assert(rest@ =~= all.skip(i + 1));
            assert(prefix.drop_last() =~= all.take(i as int));
            assert(prefix.last() == a);
        }
        if a.is_local_provider() == local {
            chosen.push(a);
        } else {
            others.push(a);
        }
        i += 1;
    }
    proof {
        assert(all.take(n as int) =~= all);
    }
    (chosen, others)
}

/// Orders accounts with the local or the remote ones first, keeping the
/// order within each group.
pub fn order_accounts(s: Vec<Account>, local_leading: bool) -> (res: Vec<Account>)
    ensures
        res@ == (if local_leading {
            local_first(s@)
        } else {
            remote_first(s@)
        }),
{
    let (mut first, mut second) = select_accounts(s, local_leading);
    let ghost a = first@;
    let ghost b = second@;
    first.append(&mut second);
    assert(first@ =~= a + b);
    first
}

fn same_opt_text(a: &Option<String>, b: &Option<String>) -> (res: bool)
    ensures
        res == (opt_text(*a) == opt_text(*b)),
{
    match (a, b) {
        (Some(x), Some(y)) => same_text(x, y),
        (None, None) => true,
        _ => false,
    }
}

fn same_texts(a: &Vec<String>, b: &Vec<String>) -> (res: bool)
    ensures
        res == (texts(a@) == texts(b@)),
{
    if a.len() != b.len() {
        assert(texts(a@).len() != texts(b@).len());
        return false;
    }
    let mut i: usize = 0;
    while i < a.len()
        invariant
            a@.len() == b@.len(),
            i <= a@.len(),
            forall|j: int| 0 <= j < i ==> a@[j]@ == b@[j]@,
        decreases a.len() - i,
    {
        if !same_text(&a[i], &b[i]) {
            assert(texts(a@)[i as int] != texts(b@)[i as int]);
            return false;
        }
        i += 1;
    }
    assert(texts(a@) =~= texts(b@));
    true
}

/// Whether two bookmarks hold the same values.
pub fn bookmarks_equal(a: &Bookmark, b: &Bookmark) -> (res: bool)
    ensures
        res == a.same_as(*b),
{
    let favicons = match (&a.favicon_cached, &b.favicon_cached) {
        (Some(x), Some(y)) => same_text(&x.favicon_url, &y.favicon_url) && same_bytes(
            &x.favicon_data,
            &y.favicon_data,
        ) && x.last_sync_timestamp == y.last_sync_timestamp,
        (None, None) => true,
        _ => false,
    };
    a.id == b.id && a.user_account_id == b.user_account_id && a.linkding_internal_id
        == b.linkding_internal_id && same_text(&a.url, &b.url) && same_text(&a.title, &b.title)
        && same_text(&a.description, &b.description) && same_opt_text(
        &a.website_title,
        &b.website_title,
    ) && same_opt_text(&a.website_description, &b.website_description) && same_text(
        &a.notes,
        &b.notes,
    ) && same_text(&a.web_archive_snapshot_url, &b.web_archive_snapshot_url) && same_opt_text(
        &a.favicon_url,
        &b.favicon_url,
    ) && same_opt_text(&a.preview_image_url, &b.preview_image_url) && a.is_archived
        == b.is_archived && a.unread == b.unread && a.shared == b.shared && same_texts(
        &a.tag_names,
        &b.tag_names,
    ) && same_opt_text(&a.date_added, &b.date_added) && same_opt_text(
        &a.date_modified,
        &b.date_modified,
    ) && a.is_owner == b.is_owner && favicons
}

fn same_bytes(a: &Vec<u8>, b: &Vec<u8>) -> (res: bool)
    ensures
        res == (a@ == b@),
{
    if a.len() != b.len() {
        return false;
    }
    let mut i: usize = 0;
    while i < a.len()
        invariant
            a@.len() == b@.len(),
            i <= a@.len(),
            forall|j: int| 0 <= j < i ==> a@[j] == b@[j],
        decreases a.len() - i,
    {
        if a[i] != b[i] {
            return false;
        }
        i += 1;
    }
    assert(a@ =~= b@);
    true
}

/// Whether the operation in progress is no longer the import `import_id`:
/// nothing runs, or another operation does.
pub open spec fn import_cancelled(progress: Option<OperationProgress>, import_id: u64) -> bool {
    match progress {
        None => true,
        Some(p) => p.operation_id != import_id,
    }
}

/// `b` with its tags trimmed and the empty ones left out.
pub open spec fn with_clean_tags(res: Bookmark, b: Bookmark) -> bool {
    &&& res == Bookmark { tag_names: res.tag_names, ..b }
    &&& texts(res.tag_names@) == clean_tags(texts(b.tag_names@))
}

fn clean_bookmark_tags(b: Bookmark) -> (res: Bookmark)
    ensures
        with_clean_tags(res, b),
{
    let mut b = b;
    let mut tags: Vec<String> = Vec::new();
    std::mem::swap(&mut tags, &mut b.tag_names);
    b.tag_names = normalize_tags(tags);
    b
}

impl AppModel {
    /// Opens the form for a new bookmark, when the application is ready:
    /// the accounts offered are the stored ones (`stored`), remote ones
    /// first; if any account is listed, the form starts from an empty owned
    /// bookmark with empty editors.
    pub fn add_bookmark_form(&mut self, stored: Vec<Account>) -> (effects: Vec<Effect>)
        ensures
            !can_add_now(old(self).state) ==> *final(self) == *old(self) && effects@.len() == 0,
            can_add_now(old(self).state) ==> {
                &&& final(self).context_accounts_list@ == remote_first(stored@)
                &&& if old(self).accounts_view.accounts@.len() > 0 {
                    &&& *final(self) == AppModel {
                        context_accounts_list: final(self).context_accounts_list,
                        context_bookmark: final(self).context_bookmark,
                        ..*old(self)
                    }
                    &&& final(self).context_bookmark matches Some(b) && b.id is None
                        && b.user_account_id is None && b.url@.len() == 0 && b.title@.len() == 0
                        && b.tag_names@.len() == 0 && !b.is_archived && !b.unread && !b.shared
                        && b.is_owner == Some(true)
                    &&& effects@ == seq![
                        Effect::ClearBookmarkEditors,
                        Effect::Then(ApplicationAction::ToggleContextPage(ContextPage::NewBookmarkForm)),
                    ]
                } else {
                    &&& *final(self) == AppModel {
                        context_accounts_list: final(self).context_accounts_list,
                        ..*old(self)
                    }
                    &&& effects@.len() == 0
                }
            },
    {
        if !(self.state == ApplicationState::Ready || self.state
            == ApplicationState::NoEnabledRemoteAccounts) {
            return Vec::new();
        }
        self.context_accounts_list = order_accounts(stored, false);
        if self.accounts_view.accounts.len() > 0 {
            self.context_bookmark = Some(
                Bookmark::new(
                    None,
                    None,
                    String::new(),
                    String::new(),
                    String::new(),
                    String::new(),
                    String::new(),
                    String::new(),
                    String::new(),
                    String::new(),
                    String::new(),
                    false,
                    false,
                    false,
                    Vec::new(),
                    None,
                    None,
                    Some(true),
                ),
            );
            vec![
                Effect::ClearBookmarkEditors,
                Effect::Then(ApplicationAction::ToggleContextPage(ContextPage::NewBookmarkForm)),
            ]
        } else {
            Vec::new()
        }
    }

    /// Sends a bookmark to be added to an account. During an import, a
    /// bookmark of an import that is no longer running is dropped and the
    /// import ends. Otherwise its tags are cleaned, it is sent with a look
    /// for an existing bookmark and without scraping, and the drawer shuts.
    pub fn start_add_bookmark(
        &mut self,
        account: Account,
        bookmark: Bookmark,
        import_context: Option<ImportAction>,
        remaining: Vec<(Bookmark, ImportAction)>,
    ) -> (effects: Vec<Effect>)
        ensures
            (import_context matches Some(c) && import_cancelled(
                old(self).operation_progress,
                c.import_id,
            )) ==> *final(self) == *old(self) && effects@ == seq![
                Effect::Then(ApplicationAction::DoneImportBookmarks(0)),
            ],
            !(import_context matches Some(c) && import_cancelled(
                old(self).operation_progress,
                c.import_id,
            )) ==> {
                &&& *final(self) == AppModel { show_context: false, ..*old(self) }
                &&& effects@.len() == 1
                &&& effects@[0] matches Effect::Populate(a, b, check, no_scraping, purpose) && a
                    == account && with_clean_tags(b, bookmark) && check && no_scraping && purpose
                    == PopulatePurpose::Add(import_context, remaining)
            },
    {
        match import_context {
            Some(c) => {
                let cancelled = match &self.operation_progress {
                    None => true,
                    Some(p) => p.operation_id != c.import_id,
                };
                if cancelled {
                    return vec![Effect::Then(ApplicationAction::DoneImportBookmarks(0))];
                }
            },
            None => {},
        }
        let bookmark = clean_bookmark_tags(bookmark);
        self.show_context = false;
        vec![
            Effect::Populate(
                account,
                bookmark,
                true,
                true,
                PopulatePurpose::Add(import_context, remaining),
            ),
        ]
    }

    /// Takes the outcome of adding a bookmark. On success the bookmark,
    /// marked as owned, is stored as new or as an update (the user is told,
    /// unless importing) and the bookmarks are reloaded; an import then goes
    /// on with its next bookmark, counting its progress, or ends with the
    /// number of bookmarks it held. On an error the user is told, and an
    /// import is cancelled.
    pub fn done_add_bookmark(
        &mut self,
        account: Account,
        response: Option<BookmarkCheckDetailsResponse>,
        import_context: Option<ImportAction>,
        remaining: Vec<(Bookmark, ImportAction)>,
    ) -> (effects: Vec<Effect>)
        requires
            old(self).operation_progress matches Some(p) ==> p.current < usize::MAX,
        ensures
            match response {
                None => *final(self) == *old(self) && effects@.len() == 0,
                Some(r) => match r.error {
                    Some(e) => {
                        &&& *final(self) == *old(self)
                        &&& effects@ == seq![Effect::Notify(Notice::Error(e))] + match import_context {
                            Some(c) => seq![
                                Effect::Then(ApplicationAction::CancelImportBookmarks(c.import_id)),
                            ],
                            None => seq![],
                        }
                    },
                    None => match r.bookmark {
                        None => *final(self) == *old(self) && effects@.len() == 0,
                        Some(b) => {
                            let owned = Bookmark { is_owner: Some(true), ..b };
                            let stored = seq![
                                if r.is_new {
                                    Effect::AddBookmark(owned)
                                } else {
                                    Effect::UpdateBookmark(owned)
                                },
                            ] + (if import_context is None {
                                seq![
                                    if r.is_new {
                                        Effect::Notify(
                                            Notice::AddedBookmarkToAccount(b.url, account.display_name),
                                        )
                                    } else {
                                        Effect::Notify(
                                            Notice::UpdatedBookmarkInAccount(
                                                b.url,
                                                account.display_name,
                                            ),
                                        )
                                    },
                                ]
                            } else {
                                seq![]
                            }) + seq![Effect::Then(ApplicationAction::LoadBookmarks)];
                            if remaining@.len() > 0 && import_context is Some {
                                &&& *final(self) == AppModel {
                                    operation_progress: match old(self).operation_progress {
                                        Some(p) => Some(
                                            OperationProgress {
                                                current: (p.current + 1) as usize,
                                                ..p
                                            },
                                        ),
                                        None => None,
                                    },
                                    ..*old(self)
                                }
                                &&& effects@ == stored + seq![
                                    Effect::Then(
                                        ApplicationAction::StartAddBookmark(
                                            account,
                                            remaining@[0].0,
                                            Some(remaining@[0].1),
                                            effects_tail_queue(effects@),
                                        ),
                                    ),
                                ]
                                &&& effects_tail_queue(effects@)@ == remaining@.skip(1)
                            } else if import_context is Some {
                                &&& *final(self) == AppModel {
                                    operation_progress: None,
                                    ..*old(self)
                                }
                                &&& effects@ == stored + seq![
                                    Effect::Then(
                                        ApplicationAction::DoneImportBookmarks(
                                            import_context->0.total_count,
                                        ),
                                    ),
                                ]
                            } else {
                                &&& *final(self) == *old(self)
                                &&& effects@ == stored
                            }
                        },
                    },
                },
            },
    {
        let mut effects: Vec<Effect> = Vec::new();
        match response {
            None => {},
            Some(r) => match r.error {
                Some(e) => {
                    effects.push(Effect::Notify(Notice::Error(e)));
                    match import_context {
                        Some(c) => {
                            effects.push(
                                Effect::Then(ApplicationAction::CancelImportBookmarks(c.import_id)),
                            );
                        },
                        None => {},
                    }
                },
                None => match r.bookmark {
                    None => {},
                    Some(b) => {
                        let url = b.url.clone();
                        let name = account.display_name.clone();
                        let mut owned = b;
                        owned.is_owner = Some(true);
                        if r.is_new {
                            effects.push(Effect::AddBookmark(owned));
                        } else {
                            effects.push(Effect::UpdateBookmark(owned));
                        }
                        if import_context.is_none() {
                            if r.is_new {
                                effects.push(
                                    Effect::Notify(Notice::AddedBookmarkToAccount(url, name)),
                                );
                            } else {
                                effects.push(
                                    Effect::Notify(Notice::UpdatedBookmarkInAccount(url, name)),
                                );
                            }
                        }
                        effects.push(Effect::Then(ApplicationAction::LoadBookmarks));
                        let ghost stored = effects@;
                        if remaining.len() > 0 && import_context.is_some() {
                            match self.operation_progress.take() {
                                Some(p) => {
                                    let mut p = p;
                                    p.advance();
                                    self.operation_progress = Some(p);
                                },
                                None => {},
                            }
                            let mut rest = remaining;
                            let ghost all = rest@;
                            let (next, next_context) = rest.remove(0);
                            assert(rest@ =~= all.skip(1));
                            effects.push(
                                Effect::Then(
                                    ApplicationAction::StartAddBookmark(
                                        account,
                                        next,
                                        Some(next_context),
                                        rest,
                                    ),
                                ),
                            );
                            assert(effects@ =~= stored + seq![effects@.last()]);
                        } else {
                            match import_context {
                                Some(c) => {
                                    self.operation_progress = None;
                                    effects.push(
                                        Effect::Then(
                                            ApplicationAction::DoneImportBookmarks(c.total_count),
                                        ),
                                    );
                                    assert(effects@ =~= stored + seq![effects@.last()]);
                                },
                                None => {},
                            }
                        }
                    },
                },
            },
        }
        effects
    }
}

/// The bookmarks still queued in the last effect, when it continues an
/// import.
pub open spec fn effects_tail_queue(effects: Seq<Effect>) -> Vec<(Bookmark, ImportAction)> {
    match effects.last() {
        Effect::Then(ApplicationAction::StartAddBookmark(_, _, _, q)) => q,
        _ => arbitrary(),
    }
}

/// Whether bookmarks can be added in the state: when the application is
/// ready, with or without enabled remote accounts.
pub open spec fn can_add_now(state: ApplicationState) -> bool {
    state == ApplicationState::Ready || state == ApplicationState::NoEnabledRemoteAccounts
}

impl AppModel {
    /// Removes a bookmark through the provider of its account (`account`, as
    /// stored under the bookmark's account identifier). The drawer shuts.
    pub fn start_remove_bookmark(&mut self, account: Account, bookmark: Bookmark) -> (effects: Vec<
        Effect,
    >)
        ensures
            *final(self) == (AppModel { show_context: false, ..*old(self) }),
            effects@ == seq![Effect::RemoveRemoteBookmark(account, bookmark)],
    {
        self.show_context = false;
        vec![Effect::RemoveRemoteBookmark(account, bookmark)]
    }

    /// Takes the outcome of removing a bookmark. On success the bookmark is
    /// deleted from the store and from the listed bookmarks, the user is
    /// told and the bookmarks are reloaded; on an error the user is told why.
    pub fn done_remove_bookmark(
        &mut self,
        account: Account,
        bookmark: Bookmark,
        response: Option<BookmarkRemoveResponse>,
    ) -> (effects: Vec<Effect>)
        requires
            response matches Some(r) && r.error is None ==> exists|i: int|
                0 <= i < old(self).bookmarks_view.bookmarks@.len()
                    && old(self).bookmarks_view.bookmarks@[i].same_as(bookmark),
        ensures
            match response {
                None => *final(self) == *old(self) && effects@.len() == 0,
                Some(r) => match r.error {
                    Some(e) => *final(self) == *old(self) && effects@ == seq![
                        Effect::Notify(Notice::Error(e)),
                    ],
                    None => {
                        let listed = old(self).bookmarks_view.bookmarks@;
                        let k = first_same(listed, bookmark);
                        &&& final(self).bookmarks_view.bookmarks@ == listed.remove(k)
                        &&& *final(self) == AppModel {
                            bookmarks_view: PageBookmarksView {
                                bookmarks: final(self).bookmarks_view.bookmarks,
                                ..old(self).bookmarks_view
                            },
                            ..*old(self)
                        }
                        &&& effects@ == seq![
                            Effect::DeleteBookmark(bookmark),
                            Effect::Notify(Notice::RemovedBookmarkFromAccount(account.display_name)),
                            Effect::Then(ApplicationAction::LoadBookmarks),
                        ]
                    },
                },
            },
    {
        match response {
            None => Vec::new(),
            Some(r) => match r.error {
                Some(e) => vec![Effect::Notify(Notice::Error(e))],
                None => {
                    let mut i: usize = 0;
                    let ghost listed = self.bookmarks_view.bookmarks@;
                    while i < self.bookmarks_view.bookmarks.len()
                        invariant
                            self.bookmarks_view.bookmarks@ == listed,
                            i <= listed.len(),
                            forall|j: int| 0 <= j < i ==> !listed[j].same_as(bookmark),
                            exists|j: int| 0 <= j < listed.len() && listed[j].same_as(bookmark),
                        ensures
                            i <= listed.len(),
                            self.bookmarks_view.bookmarks@ == listed,
                            i < listed.len() ==> listed[i as int].same_as(bookmark),
                            forall|j: int| 0 <= j < i ==> !listed[j].same_as(bookmark),
                            exists|j: int| 0 <= j < listed.len() && listed[j].same_as(bookmark),
                        decreases listed.len() - i,
                    {
                        if bookmarks_equal(&self.bookmarks_view.bookmarks[i], &bookmark) {
                            break;
                        }
                        i += 1;
                    }
                    proof {
                        if i == listed.len() {
                            let j = choose|j: int|
                                0 <= j < listed.len() && listed[j].same_as(bookmark);
                            assert(!listed[j].same_as(bookmark));
                        }
                        lemma_first_same(listed, bookmark, i as int);
                    }
                    self.bookmarks_view.bookmarks.remove(i);
                    vec![
                        Effect::DeleteBookmark(bookmark),
                        Effect::Notify(Notice::RemovedBookmarkFromAccount(account.display_name)),
                        Effect::Then(ApplicationAction::LoadBookmarks),
                    ]
                },
            },
        }
    }

    /// Opens the form for editing a bookmark of the account `account`, as
    /// stored: the editors take the bookmark's notes and description.
    pub fn edit_bookmark_form(&mut self, account: Account, bookmark: Bookmark) -> (effects: Vec<
        Effect,
    >)
        ensures
            final(self).context_bookmark matches Some(b) && b.same_as(bookmark),
            *final(self) == (AppModel {
                context_bookmark: final(self).context_bookmark,
                context_account: Some(account),
                ..*old(self)
            }),
            effects@ == seq![
                Effect::FillBookmarkEditors(bookmark.notes, bookmark.description),
                Effect::Then(ApplicationAction::ToggleContextPage(ContextPage::EditBookmarkForm)),
            ],
    {
        self.context_bookmark = Some(bookmark.duplicate());
        self.context_account = Some(account);
        vec![
            Effect::FillBookmarkEditors(bookmark.notes, bookmark.description),
            Effect::Then(ApplicationAction::ToggleContextPage(ContextPage::EditBookmarkForm)),
        ]
    }

    /// Sends an edited bookmark: its tags are cleaned, and it goes to the
    /// provider as it is, without a look for an existing one and with
    /// scraping. The drawer shuts.
    pub fn start_edit_bookmark(&mut self, account: Account, bookmark: Bookmark) -> (effects: Vec<
        Effect,
    >)
        ensures
            *final(self) == (AppModel { show_context: false, ..*old(self) }),
            effects@.len() == 1,
            effects@[0] matches Effect::Populate(a, b, check, no_scraping, purpose) && a == account
                && with_clean_tags(b, bookmark) && !check && !no_scraping && purpose
                == PopulatePurpose::Edit,
    {
        let bookmark = clean_bookmark_tags(bookmark);
        self.show_context = false;
        vec![Effect::Populate(account, bookmark, false, false, PopulatePurpose::Edit)]
    }

    /// Takes the outcome of editing a bookmark: on success the bookmark,
    /// marked as owned, is stored, the user is told and the bookmarks are
    /// reloaded; on an error the user is told why.
    pub fn done_edit_bookmark(
        &mut self,
        account: Account,
        response: Option<BookmarkCheckDetailsResponse>,
    ) -> (effects: Vec<Effect>)
        ensures
            *final(self) == *old(self),
            effects@ == match response {
                None => seq![],
                Some(r) => match r.error {
                    Some(e) => seq![Effect::Notify(Notice::Error(e))],
                    None => match r.bookmark {
                        None => seq![],
                        Some(b) => seq![
                            Effect::UpdateBookmark(Bookmark { is_owner: Some(true), ..b }),
                            Effect::Notify(
                                Notice::UpdatedBookmarkInAccount(b.url, account.display_name),
                            ),
                            Effect::Then(ApplicationAction::LoadBookmarks),
                        ],
                    },
                },
            },
    {
        match response {
            None => Vec::new(),
            Some(r) => match r.error {
                Some(e) => vec![Effect::Notify(Notice::Error(e))],
                None => match r.bookmark {
                    None => Vec::new(),
                    Some(b) => {
                        let url = b.url.clone();
                        let mut owned = b;
                        owned.is_owner = Some(true);
                        vec![
                            Effect::UpdateBookmark(owned),
                            Effect::Notify(
                                Notice::UpdatedBookmarkInAccount(url, account.display_name),
                            ),
                            Effect::Then(ApplicationAction::LoadBookmarks),
                        ]
                    },
                },
            },
        }
    }

    /// Shows a bookmark's notes in the drawer.
    pub fn view_bookmark_notes(&mut self, bookmark: Bookmark) -> (effects: Vec<Effect>)
        ensures
            *final(self) == *old(self),
            effects@ == seq![
                Effect::ShowNotes(bookmark.notes),
                Effect::Then(ApplicationAction::ToggleContextPage(ContextPage::ViewBookmarkNotes)),
            ],
    {
        vec![
            Effect::ShowNotes(bookmark.notes),
            Effect::Then(ApplicationAction::ToggleContextPage(ContextPage::ViewBookmarkNotes)),
        ]
    }

    /// Searches the bookmarks: an empty text ends the search and goes back
    /// to the first page; then the bookmarks are reloaded.
    pub fn search_bookmarks(&mut self, query: String) -> (effects: Vec<Effect>)
        ensures
            query@.len() == 0 ==> {
                &&& final(self).bookmarks_cursor.search_query is None
                &&& final(self).bookmarks_cursor.offset == 0
                &&& final(self).bookmarks_cursor.current_page == 1
            },
            query@.len() > 0 ==> final(self).bookmarks_cursor == (BookmarksPaginationCursor {
                search_query: Some(query),
                ..old(self).bookmarks_cursor
            }),
            final(self).bookmarks_cursor.items_per_page == old(self).bookmarks_cursor.items_per_page,
            final(self).bookmarks_cursor.total_entries == old(self).bookmarks_cursor.total_entries,
            final(self).bookmarks_cursor.total_pages == old(self).bookmarks_cursor.total_pages,
            *final(self) == (AppModel { bookmarks_cursor: final(self).bookmarks_cursor, ..*old(self) }),
            effects@ == seq![Effect::Then(ApplicationAction::LoadBookmarks)],
    {
        if chars_of(query.as_str()).len() == 0 {
            self.bookmarks_cursor.search_query = None;
            self.bookmarks_cursor.refresh_offset(0);
        } else {
            self.bookmarks_cursor.search_query = Some(query);
        }
        vec![Effect::Then(ApplicationAction::LoadBookmarks)]
    }
}

/// The position of the first bookmark of `s` with the same values as `b`.
pub open spec fn first_same(s: Seq<Bookmark>, b: Bookmark) -> int {
    choose|i: int|
        0 <= i < s.len() && s[i].same_as(b) && forall|j: int| 0 <= j < i ==> !s[j].same_as(b)
}

proof fn lemma_first_same(s: Seq<Bookmark>, b: Bookmark, i: int)
    requires
        0 <= i < s.len(),
        s[i].same_as(b),
        forall|j: int| 0 <= j < i ==> !s[j].same_as(b),
    ensures
        first_same(s, b) == i,
{
    let k = first_same(s, b);
    assert(0 <= k < s.len() && s[k].same_as(b) && forall|j: int| 0 <= j < k ==> !s[j].same_as(b));
    if k < i {
        assert(!s[k].same_as(b));
    }
    if k > i {
        assert(!s[i].same_as(b));
    }
}

// ---------------------------------------------------------------------------
// pages, dialogs, import and export
// ---------------------------------------------------------------------------

/// Which list a page message is about: `bookmarks`, `accounts` or neither.
pub open spec fn cursor_kind(kind: Seq<char>) -> int {
    if kind == "bookmarks"@ {
        0
    } else if kind == "accounts"@ {
        1
    } else {
        2
    }
}

fn kind_of(kind: &String) -> (res: u8)
    ensures
        res == cursor_kind(kind@),
{
    let v = chars_of(kind.as_str());
    let b = chars_of("bookmarks");
    let a = chars_of("accounts");
    if crate::text::chars_eq(&v, &b) {
        0
    } else if crate::text::chars_eq(&v, &a) {
        1
    } else {
        2
    }
}

/// A dialog of the queue where the front dialog, if any, is dropped and
/// otherwise `page` is shown: opening a dialog while one is shown closes it.
pub open spec fn open_dialog_spec(pages: Seq<DialogPage>, page: DialogPage) -> Seq<DialogPage> {
    if pages.len() == 0 {
        seq![page]
    } else {
        pages.skip(1)
    }
}

/// The accounts that an export or an import offers: the enabled ones.
pub open spec fn enabled_accounts(s: Seq<Account>) -> Seq<Account>
    decreases s.len(),
{
    if s.len() == 0 {
        seq![]
    } else {
        let r = enabled_accounts(s.drop_last());
        if s.last().enabled {
            r.push(s.last())
        } else {
            r
        }
    }
}

fn collect_enabled(accounts: &Vec<Account>) -> (res: Vec<Account>)
    ensures
        res@ == enabled_accounts(accounts@),
{
    let mut res: Vec<Account> = Vec::new();
    let mut i: usize = 0;
    while i < accounts.len()
        invariant
            i <= accounts@.len(),
            res@ == enabled_accounts(accounts@.take(i as int)),
        decreases accounts.len() - i,
    {
        proof {
            assert(accounts@.take(i + 1).drop_last() =~= accounts@.take(i as int));
        }
        if accounts[i].enabled {
            res.push(accounts[i].duplicate());
        }
        i += 1;
    }
    proof {
        assert(accounts@.take(accounts@.len() as int) =~= accounts@);
    }
    res
}

/// The bookmarks that an export writes: those of the chosen accounts, in
/// order.
pub open spec fn exported(all: Seq<Bookmark>, ids: Seq<i64>) -> Seq<Bookmark>
    decreases all.len(),
{
    if all.len() == 0 {
        seq![]
    } else {
        let r = exported(all.drop_last(), ids);
        if all.last().user_account_id matches Some(id) && ids.contains(id) {
            r.push(all.last())
        } else {
            r
        }
    }
}

/// The identifiers of the stored accounts among `s`, in order.
pub open spec fn account_ids(s: Seq<Account>) -> Seq<i64>
    decreases s.len(),
{
    if s.len() == 0 {
        seq![]
    } else {
        let r = account_ids(s.drop_last());
        match s.last().id {
            Some(id) => r.push(id),
            None => r,
        }
    }
}

/// An identifier is among those of the accounts exactly when one of the
/// accounts is stored under it.
pub proof fn lemma_account_ids_members(s: Seq<Account>, id: i64)
    ensures
        account_ids(s).contains(id) <==> exists|j: int| 0 <= j < s.len() && #[trigger] s[j].id
            == Some(id),
    decreases s.len(),
{
    if s.len() > 0 {
        let p = s.drop_last();
        lemma_account_ids_members(p, id);
        let r = account_ids(p);
        if account_ids(s).contains(id) {
            if r.contains(id) {
                let j = choose|j: int| 0 <= j < p.len() && #[trigger] p[j].id == Some(id);
                assert(s[j].id == Some(id));
            } else {
                let k = choose|k: int| 0 <= k < account_ids(s).len() && account_ids(s)[k] == id;
                assert(s.last().id is Some);
                assert(k == r.len());
                assert(s[s.len() - 1].id == Some(id));
            }
        }
        if exists|j: int| 0 <= j < s.len() && #[trigger] s[j].id == Some(id) {
            let j = choose|j: int| 0 <= j < s.len() && #[trigger] s[j].id == Some(id);
            if j < s.len() - 1 {
                assert(p[j].id == Some(id));
                let k = choose|k: int| 0 <= k < r.len() && r[k] == id;
                match s.last().id {
                    Some(x) => assert(r.push(x)[k] == id),
                    None => {},
                }
            } else {
                assert(account_ids(s) == r.push(id));
                assert(r.push(id)[r.len() as int] == id);
            }
        }
    }
}

/// A bookmark is exported exactly when it is among the stored ones and
/// belongs to an account whose identifier is chosen.
pub proof fn lemma_exported_members(all: Seq<Bookmark>, ids: Seq<i64>, b: Bookmark)
    ensures
        exported(all, ids).contains(b) <==> (all.contains(b) && b.user_account_id is Some
            && ids.contains(b.user_account_id->0)),
    decreases all.len(),
{
    if all.len() > 0 {
        let p = all.drop_last();
        lemma_exported_members(p, ids, b);
        let r = exported(p, ids);
        let x = all.last();
        let keep = x.user_account_id matches Some(id) && ids.contains(id);
        if exported(all, ids).contains(b) {
            let k = choose|k: int| 0 <= k < exported(all, ids).len() && exported(all, ids)[k] == b;
            if keep && k == r.len() {
                assert(b == x);
                assert(all[all.len() - 1] == b);
            } else {
                assert(r[k] == b);
                let j = choose|j: int| 0 <= j < p.len() && p[j] == b;
                assert(all[j] == b);
            }
        }
        if all.contains(b) && b.user_account_id is Some && ids.contains(b.user_account_id->0) {
            let j = choose|j: int| 0 <= j < all.len() && all[j] == b;
            if j < all.len() - 1 {
                assert(p[j] == b);
                let k = choose|k: int| 0 <= k < r.len() && r[k] == b;
                if keep {
                    assert(r.push(x)[k] == b);
                }
            } else {
                assert(b == x);
                assert(r.push(x)[r.len() as int] == b);
            }
        }
    }
}

/// An export writes every stored bookmark of the chosen accounts, and only
/// those: a bookmark is in the export exactly when it is stored and its
/// account is one of the chosen ones.
pub proof fn lemma_export_selects_chosen_accounts(
    all: Seq<Bookmark>,
    accounts: Seq<Account>,
    b: Bookmark,
)
    ensures
        exported(all, account_ids(accounts)).contains(b) <==> (all.contains(b) && exists|j: int|
            0 <= j < accounts.len() && b.user_account_id is Some && #[trigger] accounts[j].id
                == b.user_account_id),
{
    lemma_exported_members(all, account_ids(accounts), b);
    if b.user_account_id is Some {
        lemma_account_ids_members(accounts, b.user_account_id->0);
    }
}

fn collect_ids(accounts: &Vec<Account>) -> (res: Vec<i64>)
    ensures
        res@ == account_ids(accounts@),
{
    let mut res: Vec<i64> = Vec::new();
    let mut i: usize = 0;
    while i < accounts.len()
        invariant
            i <= accounts@.len(),
            res@ == account_ids(accounts@.take(i as int)),
        decreases accounts.len() - i,
    {
        proof {
            assert(accounts@.take(i + 1).drop_last() =~= accounts@.take(i as int));
        }
        match accounts[i].id {
            Some(id) => res.push(id),
            None => {},
        }
        i += 1;
    }
    proof {
        assert(accounts@.take(accounts@.len() as int) =~= accounts@);
    }
    res
}

fn holds_id(ids: &Vec<i64>, id: i64) -> (res: bool)
    ensures
        res == ids@.contains(id),
{
    let mut i: usize = 0;
    while i < ids.len()
        invariant
            i <= ids@.len(),
            forall|j: int| 0 <= j < i ==> ids@[j] != id,
        decreases ids.len() - i,
    {
        if ids[i] == id {
            return true;
        }
        i += 1;
    }
    false
}

/// The bookmarks of the chosen accounts among `all`, in order.
pub fn select_exported(all: Vec<Bookmark>, accounts: &Vec<Account>) -> (res: Vec<Bookmark>)
    ensures
        res@ == exported(all@, account_ids(accounts@)),
{
    let ids = collect_ids(accounts);
    let ghost src = all@;
    let mut rest = all;
    let mut res: Vec<Bookmark> = Vec::new();
    let mut i: usize = 0;
    let n = rest.len();
    while i < n
        invariant
            n == src.len(),
            i <= n,
            rest@ == src.skip(i as int),
            ids@ == account_ids(accounts@),
            res@ == exported(src.take(i as int), ids@),
        decreases n - i,
    {
        let b = rest.remove(0);
        proof {
            assert(b == src[i as int]);
            assert(rest@ =~= src.skip(i + 1));
            assert(src.take(i + 1).drop_last() =~= src.take(i as int));
            assert(src.take(i + 1).last() == b);
        }
        let keep = match b.user_account_id {
            Some(id) => holds_id(&ids, id),
            None => false,
        };
        if keep {
            res.push(b);
        }
        i += 1;
    }
    proof {
        assert(src.take(n as int) =~= src);
    }
    res
}

/// What the caller found when reading the file of an import.
#[derive(Debug, Clone)]
pub enum ImportRead {
    /// No file was chosen.
    NoPath,
    /// The chosen file does not exist.
    NotFound(String),
    /// The file could not be read, for this reason.
    Failed(String),
    /// The file's text.
    Content(String),
}

/// The progress of an import: its identifier, the number of bookmarks,
/// none imported yet, the message `importing-bookmarks`, and cancellable.
pub open spec fn import_progress(import_id: u64, total: nat, p: OperationProgress) -> bool {
    &&& p.operation_id == import_id
    &&& p.total == total
    &&& p.current == 0
    &&& p.operation_label@ == "importing-bookmarks"@
    &&& p.cancellable
}

/// The bookmarks of an import, each with its place in the import.
pub open spec fn import_queue(
    bs: Seq<Bookmark>,
    import_id: u64,
    queue: Seq<(Bookmark, ImportAction)>,
) -> bool {
    &&& queue.len() == bs.len()
    &&& forall|k: int|
        0 <= k < bs.len() ==> #[trigger] queue[k] == (
            bs[k],
            ImportAction { import_id, total_count: bs.len() as usize, current_index: k as usize },
        )
}

fn with_context(bs: Vec<Bookmark>, import_id: u64) -> (res: Vec<(Bookmark, ImportAction)>)
    ensures
        import_queue(bs@, import_id, res@),
{
    let ghost src = bs@;
    let total = bs.len();
    let mut rest = bs;
    let mut res: Vec<(Bookmark, ImportAction)> = Vec::new();
    let mut i: usize = 0;
    while i < total
        invariant
            total == src.len(),
            i <= total,
            rest@ == src.skip(i as int),
            res@.len() == i,
            forall|k: int|
                0 <= k < i ==> #[trigger] res@[k] == (
                    src[k],
                    ImportAction { import_id, total_count: total, current_index: k as usize },
                ),
        decreases total - i,
    {
        let b = rest.remove(0);
        proof {
            assert(b == src[i as int]);
            assert(rest@ =~= src.skip(i + 1));
        }
        res.push((b, ImportAction { import_id, total_count: total, current_index: i }));
        i += 1;
    }
    res
}

impl AppModel {
    /// Moves a list one page on: the bookmarks or accounts cursor goes to
    /// the next page unless it is on the last, and the list is reloaded.
    pub fn increment_page_index(&mut self, kind: String) -> (effects: Vec<Effect>)
        ensures
            cursor_kind(kind@) == 0 ==> {
                &&& *final(self) == AppModel {
                    bookmarks_cursor: BookmarksPaginationCursor {
                        current_page: page_after(
                            old(self).bookmarks_cursor.current_page,
                            old(self).bookmarks_cursor.total_pages,
                        ),
                        ..old(self).bookmarks_cursor
                    },
                    ..*old(self)
                }
                &&& effects@ == seq![Effect::Then(ApplicationAction::LoadBookmarks)]
            },
            cursor_kind(kind@) == 1 ==> {
                &&& *final(self) == AppModel {
                    accounts_cursor: AccountsPaginationCursor {
                        current_page: page_after(
                            old(self).accounts_cursor.current_page,
                            old(self).accounts_cursor.total_pages,
                        ),
                        ..old(self).accounts_cursor
                    },
                    ..*old(self)
                }
                &&& effects@ == seq![Effect::Then(ApplicationAction::LoadAccounts)]
            },
            cursor_kind(kind@) == 2 ==> *final(self) == *old(self) && effects@.len() == 0,
    {
        let k = kind_of(&kind);
        if k == 0 {
            if self.bookmarks_cursor.current_page < self.bookmarks_cursor.total_pages {
                self.bookmarks_cursor.current_page = self.bookmarks_cursor.current_page + 1;
            }
            vec![Effect::Then(ApplicationAction::LoadBookmarks)]
        } else if k == 1 {
            if self.accounts_cursor.current_page < self.accounts_cursor.total_pages {
                self.accounts_cursor.current_page = self.accounts_cursor.current_page + 1;
            }
            vec![Effect::Then(ApplicationAction::LoadAccounts)]
        } else {
            Vec::new()
        }
    }

    /// Moves a list one page back: the cursor goes to the previous page
    /// unless it is on the first, and the list is reloaded.
    pub fn decrement_page_index(&mut self, kind: String) -> (effects: Vec<Effect>)
        ensures
            cursor_kind(kind@) == 0 ==> {
                &&& *final(self) == AppModel {
                    bookmarks_cursor: BookmarksPaginationCursor {
                        current_page: page_before(old(self).bookmarks_cursor.current_page),
                        ..old(self).bookmarks_cursor
                    },
                    ..*old(self)
                }
                &&& effects@ == seq![Effect::Then(ApplicationAction::LoadBookmarks)]
            },
            cursor_kind(kind@) == 1 ==> {
                &&& *final(self) == AppModel {
                    accounts_cursor: AccountsPaginationCursor {
                        current_page: page_before(old(self).accounts_cursor.current_page),
                        ..old(self).accounts_cursor
                    },
                    ..*old(self)
                }
                &&& effects@ == seq![Effect::Then(ApplicationAction::LoadAccounts)]
            },
            cursor_kind(kind@) == 2 ==> *final(self) == *old(self) && effects@.len() == 0,
    {
        let k = kind_of(&kind);
        if k == 0 {
            if self.bookmarks_cursor.current_page > 1 {
                self.bookmarks_cursor.current_page = self.bookmarks_cursor.current_page - 1;
            }
            vec![Effect::Then(ApplicationAction::LoadBookmarks)]
        } else if k == 1 {
            if self.accounts_cursor.current_page > 1 {
                self.accounts_cursor.current_page = self.accounts_cursor.current_page - 1;
            }
            vec![Effect::Then(ApplicationAction::LoadAccounts)]
        } else {
            Vec::new()
        }
    }

    /// Opens a dialog, or closes the one shown.
    pub fn open_dialog(&mut self, page: DialogPage)
        ensures
            *final(self) == (AppModel {
                dialog_pages: final(self).dialog_pages,
                ..*old(self)
            }),
            final(self).dialog_pages@ == open_dialog_spec(old(self).dialog_pages@, page),
    {
        if self.dialog_pages.len() == 0 {
            self.dialog_pages.push(page);
        } else {
            self.dialog_pages.remove(0);
        }
    }

    /// Replaces the dialog shown.
    pub fn dialog_update(&mut self, page: DialogPage)
        requires
            old(self).dialog_pages@.len() > 0,
        ensures
            *final(self) == (AppModel {
                dialog_pages: final(self).dialog_pages,
                ..*old(self)
            }),
            final(self).dialog_pages@ == old(self).dialog_pages@.update(0, page),
    {
        self.dialog_pages.set(0, page);
    }

    /// Closes the dialog shown.
    pub fn dialog_cancel(&mut self)
        ensures
            *final(self) == (AppModel {
                dialog_pages: final(self).dialog_pages,
                ..*old(self)
            }),
            final(self).dialog_pages@ == (if old(self).dialog_pages@.len() > 0 {
                old(self).dialog_pages@.skip(1)
            } else {
                old(self).dialog_pages@
            }),
    {
        if self.dialog_pages.len() > 0 {
            self.dialog_pages.remove(0);
            assert(self.dialog_pages@ =~= old(self).dialog_pages@.skip(1));
        }
    }

    /// Confirms the dialog shown: removing an account or a bookmark, or
    /// purging the favicon cache (and reloading the bookmarks), goes ahead;
    /// the dialog closes, and the accounts are reloaded.
    pub fn complete_remove_dialog(&mut self) -> (effects: Vec<Effect>)
        ensures
            *final(self) == (AppModel {
                dialog_pages: final(self).dialog_pages,
                ..*old(self)
            }),
            old(self).dialog_pages@.len() == 0 ==> final(self).dialog_pages@
                == old(self).dialog_pages@ && effects@ == seq![
                Effect::Then(ApplicationAction::LoadAccounts),
            ],
            old(self).dialog_pages@.len() > 0 ==> {
                &&& final(self).dialog_pages@ == old(self).dialog_pages@.skip(1)
                &&& effects@ == match old(self).dialog_pages@[0] {
                    DialogPage::RemoveAccount(a) => seq![
                        Effect::Then(ApplicationAction::RemoveAccount(a)),
                        Effect::Then(ApplicationAction::LoadAccounts),
                    ],
                    DialogPage::RemoveBookmark(id, b) => seq![
                        Effect::Then(ApplicationAction::StartRemoveBookmark(id, b)),
                        Effect::Then(ApplicationAction::LoadAccounts),
                    ],
                    DialogPage::PurgeFaviconsCache() => seq![
                        Effect::Then(ApplicationAction::PurgeFaviconsCache),
                        Effect::Then(ApplicationAction::LoadBookmarks),
                        Effect::Then(ApplicationAction::LoadAccounts),
                    ],
                    _ => seq![Effect::Then(ApplicationAction::LoadAccounts)],
                }
            },
    {
        let mut effects: Vec<Effect> = Vec::new();
        if self.dialog_pages.len() > 0 {
            let page = self.dialog_pages.remove(0);
            assert(self.dialog_pages@ =~= old(self).dialog_pages@.skip(1));
            match page {
                DialogPage::RemoveAccount(a) => {
                    effects.push(Effect::Then(ApplicationAction::RemoveAccount(a)));
                },
                DialogPage::RemoveBookmark(id, b) => {
                    effects.push(Effect::Then(ApplicationAction::StartRemoveBookmark(id, b)));
                },
                DialogPage::PurgeFaviconsCache() => {
                    effects.push(Effect::Then(ApplicationAction::PurgeFaviconsCache));
                    effects.push(Effect::Then(ApplicationAction::LoadBookmarks));
                },
                _ => {},
            }
        }
        effects.push(Effect::Then(ApplicationAction::LoadAccounts));
        effects
    }

    /// Opens the export dialog over the enabled accounts, none of them
    /// chosen, without a file, if there are enabled accounts.
    pub fn start_export(&mut self)
        ensures
            *final(self) == (AppModel {
                dialog_pages: final(self).dialog_pages,
                ..*old(self)
            }),
            enabled_accounts(old(self).accounts_view.accounts@).len() == 0 ==> final(self).dialog_pages
                == old(self).dialog_pages,
            enabled_accounts(old(self).accounts_view.accounts@).len() > 0 ==> {
                let en = enabled_accounts(old(self).accounts_view.accounts@);
                if old(self).dialog_pages@.len() == 0 {
                    &&& final(self).dialog_pages@.len() == 1
                    &&& final(self).dialog_pages@[0] matches DialogPage::ExportBookmarks(
                        accounts,
                        chosen,
                        path,
                    ) && accounts@ == en && chosen@ == Seq::new(en.len(), |i: int| false)
                        && path is None
                } else {
                    final(self).dialog_pages@ == old(self).dialog_pages@.skip(1)
                }
            },
    {
        let enabled = collect_enabled(&self.accounts_view.accounts);
        if enabled.len() > 0 {
            let mut chosen: Vec<bool> = Vec::new();
            let mut i: usize = 0;
            while i < enabled.len()
                invariant
                    i <= enabled@.len(),
                    chosen@ == Seq::new(i as nat, |k: int| false),
                decreases enabled.len() - i,
            {
                chosen.push(false);
                assert(chosen@ =~= Seq::new((i + 1) as nat, |k: int| false));
                i += 1;
            }
            self.open_dialog(DialogPage::ExportBookmarks(enabled, chosen, None));
            proof {
                if old(self).dialog_pages@.len() > 0 {
                    assert(self.dialog_pages@ == old(self).dialog_pages@.skip(1));
                }
            }
        }
    }

    /// Opens the import dialog over the enabled accounts, the first one
    /// chosen, without a file, if there are enabled accounts.
    pub fn start_import(&mut self)
        ensures
            *final(self) == (AppModel {
                dialog_pages: final(self).dialog_pages,
                ..*old(self)
            }),
            enabled_accounts(old(self).accounts_view.accounts@).len() == 0 ==> final(self).dialog_pages
                == old(self).dialog_pages,
            enabled_accounts(old(self).accounts_view.accounts@).len() > 0 ==> {
                let en = enabled_accounts(old(self).accounts_view.accounts@);
                if old(self).dialog_pages@.len() == 0 {
                    &&& final(self).dialog_pages@.len() == 1
                    &&& final(self).dialog_pages@[0] matches DialogPage::ImportBookmarks(
                        accounts,
                        chosen,
                        path,
                    ) && accounts@ == en && chosen == 0 && path is None
                } else {
                    final(self).dialog_pages@ == old(self).dialog_pages@.skip(1)
                }
            },
    {
        let enabled = collect_enabled(&self.accounts_view.accounts);
        if enabled.len() > 0 {
            self.open_dialog(DialogPage::ImportBookmarks(enabled, 0, None));
        }
    }

    /// Chooses the accounts to export from, in the export dialog shown.
    pub fn export_select_accounts(&mut self, chosen: Vec<bool>)
        ensures
            *final(self) == (AppModel {
                dialog_pages: final(self).dialog_pages,
                ..*old(self)
            }),
            (old(self).dialog_pages@.len() > 0 && old(self).dialog_pages@[0] matches DialogPage::ExportBookmarks(a, c, p)) ==> final(self).dialog_pages@
                == old(self).dialog_pages@.update(
                0,
                DialogPage::ExportBookmarks(
                    old(self).dialog_pages@[0]->ExportBookmarks_0,
                    chosen,
                    old(self).dialog_pages@[0]->ExportBookmarks_2,
                ),
            ),
            !(old(self).dialog_pages@.len() > 0 && old(self).dialog_pages@[0] matches DialogPage::ExportBookmarks(
                a,
                c,
                p,
            )) ==> final(self).dialog_pages@ == old(self).dialog_pages@,
    {
        if self.dialog_pages.len() > 0 {
            let front = self.dialog_pages.remove(0);
            match front {
                DialogPage::ExportBookmarks(accounts, _, path) => {
                    self.dialog_pages.insert(0, DialogPage::ExportBookmarks(accounts, chosen, path));
                    assert(self.dialog_pages@ =~= old(self).dialog_pages@.update(
                        0,
                        DialogPage::ExportBookmarks(
                            old(self).dialog_pages@[0]->ExportBookmarks_0,
                            chosen,
                            old(self).dialog_pages@[0]->ExportBookmarks_2,
                        ),
                    ));
                },
                other => {
                    self.dialog_pages.insert(0, other);
                    assert(self.dialog_pages@ =~= old(self).dialog_pages@);
                },
            }
        }
    }

    /// Asks the user for the file to export to.
    pub fn select_export_path(&mut self) -> (effects: Vec<Effect>)
        ensures
            *final(self) == *old(self),
            effects@ == seq![Effect::ChooseExportPath],
    {
        vec![Effect::ChooseExportPath]
    }

    /// Asks the user for the file to import from.
    pub fn select_import_path(&mut self) -> (effects: Vec<Effect>)
        ensures
            *final(self) == *old(self),
            effects@ == seq![Effect::ChooseImportPath],
    {
        vec![Effect::ChooseImportPath]
    }

    /// Sets the file to export to, in the export dialog shown.
    pub fn set_export_path(&mut self, path: Option<String>)
        ensures
            *final(self) == (AppModel {
                dialog_pages: final(self).dialog_pages,
                ..*old(self)
            }),
            (old(self).dialog_pages@.len() > 0 && old(self).dialog_pages@[0] matches DialogPage::ExportBookmarks(a, c, p)) ==> final(self).dialog_pages@
                == old(self).dialog_pages@.update(
                0,
                DialogPage::ExportBookmarks(
                    old(self).dialog_pages@[0]->ExportBookmarks_0,
                    old(self).dialog_pages@[0]->ExportBookmarks_1,
                    path,
                ),
            ),
            !(old(self).dialog_pages@.len() > 0 && old(self).dialog_pages@[0] matches DialogPage::ExportBookmarks(
                a,
                c,
                p,
            )) ==> final(self).dialog_pages@ == old(self).dialog_pages@,
    {
        if self.dialog_pages.len() > 0 {
            let front = self.dialog_pages.remove(0);
            match front {
                DialogPage::ExportBookmarks(accounts, chosen, _) => {
                    self.dialog_pages.insert(0, DialogPage::ExportBookmarks(accounts, chosen, path));
                    assert(self.dialog_pages@ =~= old(self).dialog_pages@.update(
                        0,
                        DialogPage::ExportBookmarks(
                            old(self).dialog_pages@[0]->ExportBookmarks_0,
                            old(self).dialog_pages@[0]->ExportBookmarks_1,
                            path,
                        ),
                    ));
                },
                other => {
                    self.dialog_pages.insert(0, other);
                    assert(self.dialog_pages@ =~= old(self).dialog_pages@);
                },
            }
        }
    }

    /// Chooses the account to import into, in the import dialog shown.
    pub fn import_select_account(&mut self, index: usize)
        ensures
            *final(self) == (AppModel {
                dialog_pages: final(self).dialog_pages,
                ..*old(self)
            }),
            (old(self).dialog_pages@.len() > 0 && old(self).dialog_pages@[0] matches DialogPage::ImportBookmarks(a, c, p)) ==> final(self).dialog_pages@
                == old(self).dialog_pages@.update(
                0,
                DialogPage::ImportBookmarks(
                    old(self).dialog_pages@[0]->ImportBookmarks_0,
                    index,
                    old(self).dialog_pages@[0]->ImportBookmarks_2,
                ),
            ),
            !(old(self).dialog_pages@.len() > 0 && old(self).dialog_pages@[0] matches DialogPage::ImportBookmarks(
                a,
                c,
                p,
            )) ==> final(self).dialog_pages@ == old(self).dialog_pages@,
    {
        if self.dialog_pages.len() > 0 {
            let front = self.dialog_pages.remove(0);
            match front {
                DialogPage::ImportBookmarks(accounts, _, path) => {
                    self.dialog_pages.insert(0, DialogPage::ImportBookmarks(accounts, index, path));
                    assert(self.dialog_pages@ =~= old(self).dialog_pages@.update(
                        0,
                        DialogPage::ImportBookmarks(
                            old(self).dialog_pages@[0]->ImportBookmarks_0,
                            index,
                            old(self).dialog_pages@[0]->ImportBookmarks_2,
                        ),
                    ));
                },
                other => {
                    self.dialog_pages.insert(0, other);
                    assert(self.dialog_pages@ =~= old(self).dialog_pages@);
                },
            }
        }
    }

    /// Sets the file to import from, in the import dialog shown.
    pub fn set_import_path(&mut self, path: Option<String>)
        ensures
            *final(self) == (AppModel {
                dialog_pages: final(self).dialog_pages,
                ..*old(self)
            }),
            (old(self).dialog_pages@.len() > 0 && old(self).dialog_pages@[0] matches DialogPage::ImportBookmarks(a, c, p)) ==> final(self).dialog_pages@
                == old(self).dialog_pages@.update(
                0,
                DialogPage::ImportBookmarks(
                    old(self).dialog_pages@[0]->ImportBookmarks_0,
                    old(self).dialog_pages@[0]->ImportBookmarks_1,
                    path,
                ),
            ),
            !(old(self).dialog_pages@.len() > 0 && old(self).dialog_pages@[0] matches DialogPage::ImportBookmarks(
                a,
                c,
                p,
            )) ==> final(self).dialog_pages@ == old(self).dialog_pages@,
    {
        if self.dialog_pages.len() > 0 {
            let front = self.dialog_pages.remove(0);
            match front {
                DialogPage::ImportBookmarks(accounts, index, _) => {
                    self.dialog_pages.insert(0, DialogPage::ImportBookmarks(accounts, index, path));
                    assert(self.dialog_pages@ =~= old(self).dialog_pages@.update(
                        0,
                        DialogPage::ImportBookmarks(
                            old(self).dialog_pages@[0]->ImportBookmarks_0,
                            old(self).dialog_pages@[0]->ImportBookmarks_1,
                            path,
                        ),
                    ));
                },
                other => {
                    self.dialog_pages.insert(0, other);
                    assert(self.dialog_pages@ =~= old(self).dialog_pages@);
                },
            }
        }
    }

    /// Writes the export: the file of the export dialog shown (which
    /// closes) receives the Netscape document of the stored bookmarks
    /// (`all`) that belong to the chosen accounts; without a file the user is
    /// told so.
    pub fn perform_export(&mut self, accounts: Vec<Account>, all: Vec<Bookmark>) -> (effects: Vec<
        Effect,
    >)
        ensures
            *final(self) == (AppModel {
                dialog_pages: final(self).dialog_pages,
                ..*old(self)
            }),
            final(self).dialog_pages@ == (if old(self).dialog_pages@.len() > 0 {
                old(self).dialog_pages@.skip(1)
            } else {
                old(self).dialog_pages@
            }),
            effects@.len() == 1,
            match export_path(old(self).dialog_pages@) {
                Some(p) => effects@[0] matches Effect::WriteExport(path, doc, count) && path == p
                    && doc@ == netscape_document(exported(all@, account_ids(accounts@))) && count
                    == exported(all@, account_ids(accounts@)).len(),
                None => effects@[0] == Effect::Notify(Notice::ExportNoPath),
            },
    {
        let path = if self.dialog_pages.len() > 0 {
            let front = self.dialog_pages.remove(0);
            assert(self.dialog_pages@ =~= old(self).dialog_pages@.skip(1));
            match front {
                DialogPage::ExportBookmarks(_, _, p) => p,
                _ => None,
            }
        } else {
            None
        };
        match path {
            Some(p) => {
                let chosen = select_exported(all, &accounts);
                let doc = BookmarkIO::generate(chosen.as_slice(), BookmarkFormat::Netscape);
                vec![Effect::WriteExport(p, doc, chosen.len())]
            },
            None => vec![Effect::Notify(Notice::ExportNoPath)],
        }
    }

    /// Closes the import dialog shown and says which file to read; the
    /// application is busy until the import ends.
    pub fn begin_import(&mut self) -> (path: Option<String>)
        ensures
            *final(self) == (AppModel {
                dialog_pages: final(self).dialog_pages,
                state: ApplicationState::Refreshing,
                ..*old(self)
            }),
            final(self).dialog_pages@ == (if old(self).dialog_pages@.len() > 0 {
                old(self).dialog_pages@.skip(1)
            } else {
                old(self).dialog_pages@
            }),
            path == import_path(old(self).dialog_pages@),
    {
        let path = if self.dialog_pages.len() > 0 {
            let front = self.dialog_pages.remove(0);
            assert(self.dialog_pages@ =~= old(self).dialog_pages@.skip(1));
            match front {
                DialogPage::ImportBookmarks(_, _, p) => p,
                _ => None,
            }
        } else {
            None
        };
        self.state = ApplicationState::Refreshing;
        path
    }

    /// Imports the bookmarks of the file read into `account`, as the
    /// import `import_id`. A missing file, a failed read, a document that
    /// does not parse or one without bookmarks tell the user why and end the
    /// import. Otherwise the import's progress is counted over its
    /// bookmarks, the first one is added with the others queued, and the
    /// user is told how many are coming.
    pub fn import_file(&mut self, account: Account, read: ImportRead, import_id: u64) -> (effects:
        Vec<Effect>)
        ensures
            match read {
                ImportRead::NoPath => *final(self) == *old(self) && effects@ == seq![
                    Effect::Notify(Notice::ImportNoPath),
                    Effect::Then(ApplicationAction::DoneImportBookmarks(0)),
                ],
                ImportRead::NotFound(p) => *final(self) == *old(self) && effects@ == seq![
                    Effect::Notify(Notice::ImportFileNotFound(p)),
                    Effect::Then(ApplicationAction::DoneImportBookmarks(0)),
                ],
                ImportRead::Failed(e) => *final(self) == *old(self) && effects@ == seq![
                    Effect::Notify(Notice::ImportError(e)),
                    Effect::Then(ApplicationAction::DoneImportBookmarks(0)),
                ],
                ImportRead::Content(c) => match netscape_scan(c@) {
                    crate::utils::bookmark_parser::netscape::ScanOutcome::Entries(es) => if es.len()
                        == 0 {
                        *final(self) == *old(self) && effects@ == seq![
                            Effect::Notify(Notice::ImportNoBookmarks),
                            Effect::Then(ApplicationAction::DoneImportBookmarks(0)),
                        ]
                    } else {
                        &&& *final(self) == AppModel {
                            operation_progress: final(self).operation_progress,
                            ..*old(self)
                        }
                        &&& final(self).operation_progress matches Some(p) && import_progress(
                            import_id,
                            es.len(),
                            p,
                        )
                        &&& effects@.len() == 2
                        &&& effects@[1] == Effect::Notify(Notice::ImportStarted(es.len() as usize))
                        &&& effects@[0] matches Effect::Then(
                            ApplicationAction::StartAddBookmark(a, first, ctx, rest),
                        ) && a == account && exists|queue: Seq<(Bookmark, ImportAction)>|
                            {
                                &&& queue.len() == es.len()
                                &&& import_queue(queue.map_values(|q: (Bookmark, ImportAction)| q.0), import_id, queue)
                                &&& (forall|k: int| 0 <= k < es.len() ==> crate::utils::bookmark_parser::netscape::imported_as(#[trigger] queue[k].0, es[k]))
                                &&& first == queue[0].0
                                &&& ctx == Some(queue[0].1)
                                &&& rest@ == queue.skip(1)
                            }
                    },
                    crate::utils::bookmark_parser::netscape::ScanOutcome::Failed(e) => {
                        &&& *final(self) == *old(self)
                        &&& effects@.len() == 2
                        &&& effects@[0] matches Effect::Notify(Notice::ImportError(m)) && m@ == e.message_spec()
                        &&& effects@[1] == Effect::Then(ApplicationAction::DoneImportBookmarks(0))
                    },
                    crate::utils::bookmark_parser::netscape::ScanOutcome::Aborted => {
                        &&& *final(self) == *old(self)
                        &&& effects@.len() == 2
                        &&& effects@[0] matches Effect::Notify(Notice::ImportError(m)) && m@ == crate::utils::bookmark_parser::netscape::ParseError::NoClosingAnchor.message_spec()
                        &&& effects@[1] == Effect::Then(ApplicationAction::DoneImportBookmarks(0))
                    },
                },
            },
    {
        match read {
            ImportRead::NoPath => vec![
                Effect::Notify(Notice::ImportNoPath),
                Effect::Then(ApplicationAction::DoneImportBookmarks(0)),
            ],
            ImportRead::NotFound(p) => vec![
                Effect::Notify(Notice::ImportFileNotFound(p)),
                Effect::Then(ApplicationAction::DoneImportBookmarks(0)),
            ],
            ImportRead::Failed(e) => vec![
                Effect::Notify(Notice::ImportError(e)),
                Effect::Then(ApplicationAction::DoneImportBookmarks(0)),
            ],
            ImportRead::Content(c) => {
                match BookmarkIO::parse(c.as_str(), BookmarkFormat::Netscape) {
                    Err(e) => vec![
                        Effect::Notify(Notice::ImportError(e.message())),
                        Effect::Then(ApplicationAction::DoneImportBookmarks(0)),
                    ],
                    Ok(bs) => {
                        if bs.len() == 0 {
                            vec![
                                Effect::Notify(Notice::ImportNoBookmarks),
                                Effect::Then(ApplicationAction::DoneImportBookmarks(0)),
                            ]
                        } else {
                            let total = bs.len();
                            let ghost src = bs@;
                            let mut queue = with_context(bs, import_id);
                            let ghost all = queue@;
                            proof {
                                assert(all.map_values(|q: (Bookmark, ImportAction)| q.0) =~= src);
                            }
                            let (first, ctx) = queue.remove(0);
                            assert(queue@ =~= all.skip(1));
                            self.operation_progress = Some(
                                OperationProgress {
                                    operation_id: import_id,
                                    total,
                                    current: 0,
                                    operation_label: string_of(&chars_of("importing-bookmarks")),
                                    cancellable: true,
                                },
                            );
                            vec![
                                Effect::Then(
                                    ApplicationAction::StartAddBookmark(
                                        account,
                                        first,
                                        Some(ctx),
                                        queue,
                                    ),
                                ),
                                Effect::Notify(Notice::ImportStarted(total)),
                            ]
                        }
                    },
                }
            },
        }
    }

    /// Cancels a running import: its progress is dropped and it ends.
    pub fn cancel_import(&mut self) -> (effects: Vec<Effect>)
        ensures
            *final(self) == (AppModel { operation_progress: None, ..*old(self) }),
            effects@ == seq![Effect::Then(ApplicationAction::DoneImportBookmarks(0))],
    {
        self.operation_progress = None;
        vec![Effect::Then(ApplicationAction::DoneImportBookmarks(0))]
    }

    /// Ends an import: the application is ready again, and the user hears
    /// how many bookmarks were imported, if any.
    pub fn done_import(&mut self, count: usize) -> (effects: Vec<Effect>)
        ensures
            *final(self) == (AppModel {
                state: ApplicationState::Ready,
                operation_progress: None,
                ..*old(self)
            }),
            effects@ == (if count > 0 {
                seq![Effect::Notify(Notice::ImportFinished(count))]
            } else {
                seq![]
            }),
    {
        self.state = ApplicationState::Ready;
        self.operation_progress = None;
        if count > 0 {
            vec![Effect::Notify(Notice::ImportFinished(count))]
        } else {
            Vec::new()
        }
    }
}

/// The file of the export dialog at the front of the queue.
pub open spec fn export_path(pages: Seq<DialogPage>) -> Option<String> {
    if pages.len() > 0 {
        match pages[0] {
            DialogPage::ExportBookmarks(_, _, p) => p,
            _ => None,
        }
    } else {
        None
    }
}

/// The file of the import dialog at the front of the queue.
pub open spec fn import_path(pages: Seq<DialogPage>) -> Option<String> {
    if pages.len() > 0 {
        match pages[0] {
            DialogPage::ImportBookmarks(_, _, p) => p,
            _ => None,
        }
    } else {
        None
    }
}

// ---------------------------------------------------------------------------
// loading
// ---------------------------------------------------------------------------

/// Whether a local account already reports the library's version.
pub open spec fn has_local_version(a: Account) -> bool {
    opt_text(a.provider_version) == Some(local_version())
}

/// `after` is `before` with every local account that did not report the
/// library's version given it; other accounts are unchanged.
pub open spec fn versions_refreshed(before: Seq<Account>, after: Seq<Account>) -> bool {
    &&& after.len() == before.len()
    &&& forall|i: int|
        0 <= i < before.len() ==> {
            if before[i].provider == Provider::Cosmicding && !has_local_version(before[i]) {
                &&& #[trigger] after[i] == Account {
                    provider_version: after[i].provider_version,
                    ..before[i]
                }
                &&& has_local_version(after[i])
            } else {
                after[i] == before[i]
            }
        }
}

/// The saves that refreshing the versions asks for: each account whose
/// version changed, in order.
pub open spec fn version_saves(before: Seq<Account>, after: Seq<Account>) -> Seq<Effect>
    decreases before.len(),
{
    if before.len() == 0 || after.len() == 0 {
        seq![]
    } else {
        let r = version_saves(before.drop_last(), after.drop_last());
        if before.last().provider == Provider::Cosmicding && !has_local_version(before.last()) {
            r.push(Effect::UpdateAccount(after.last()))
        } else {
            r
        }
    }
}

/// The first account of `s` with the identifier `id`.
pub open spec fn find_by_id(s: Seq<Account>, id: Option<i64>) -> Option<Account>
    decreases s.len(),
{
    if s.len() == 0 {
        None
    } else if s[0].id == id {
        Some(s[0])
    } else {
        find_by_id(s.skip(1), id)
    }
}

fn find_account(s: &Vec<Account>, id: Option<i64>) -> (res: Option<Account>)
    ensures
        res == find_by_id(s@, id),
{
    let mut i: usize = 0;
    assert(s@.skip(0) =~= s@);
    while i < s.len()
        invariant
            i <= s@.len(),
            find_by_id(s@, id) == find_by_id(s@.skip(i as int), id),
        decreases s.len() - i,
    {
        assert(s@.skip(i as int)[0] == s@[i as int]);
        if s[i].id == id {
            return Some(s[i].duplicate());
        }
        assert(s@.skip(i as int).skip(1) =~= s@.skip(i + 1));
        i += 1;
    }
    None
}

fn refresh_versions(accounts: Vec<Account>) -> (res: (Vec<Account>, Vec<Effect>))
    ensures
        versions_refreshed(accounts@, res.0@),
        res.1@ == version_saves(accounts@, res.0@),
{
    let ghost before = accounts@;
    let mut rest = accounts;
    let mut out: Vec<Account> = Vec::new();
    let mut saves: Vec<Effect> = Vec::new();
    let n = rest.len();
    let mut i: usize = 0;
    while i < n
        invariant
            n == before.len(),
            i <= n,
            rest@ == before.skip(i as int),
            versions_refreshed(before.take(i as int), out@),
            saves@ == version_saves(before.take(i as int), out@),
        decreases n - i,
    {
        let a = rest.remove(0);
        proof {
            assert(a == before[i as int]);
            assert(rest@ =~= before.skip(i + 1));
            assert(before.take(i + 1).drop_last() =~= before.take(i as int));
        }
        let ghost out_before = out@;
        let up_to_date = match &a.provider_version {
            Some(v) => crate::text::chars_eq(&chars_of(v.as_str()), &chars_of("0.1.0")),
            None => false,
        };
        if a.is_local_provider() && !up_to_date {
            let updated = set_version(a, None);
            saves.push(Effect::UpdateAccount(updated.duplicate()));
            out.push(updated);
        } else {
            out.push(a);
        }
        proof {
            assert(out@.drop_last() == out_before);
            assert forall|k: int| 0 <= k < i + 1 implies {
                let bb = before.take(i + 1);
                if bb[k].provider == Provider::Cosmicding && !has_local_version(bb[k]) {
                    &&& #[trigger] out@[k] == Account { provider_version: out@[k].provider_version, ..bb[k] }
                    &&& has_local_version(out@[k])
                } else {
                    out@[k] == bb[k]
                }
            } by {
                if k < i {
                    assert(before.take(i + 1)[k] == before.take(i as int)[k]);
                    assert(out@[k] == out_before[k]);
                }
            }
        }
        i += 1;
    }
    proof {
        assert(before.take(n as int) =~= before);
    }
    (out, saves)
}

/// The bookmarks of `s` that do not belong to the account `id`.
pub open spec fn without_account(s: Seq<Bookmark>, id: i64) -> Seq<Bookmark>
    decreases s.len(),
{
    if s.len() == 0 {
        seq![]
    } else {
        let r = without_account(s.drop_last(), id);
        if s.last().user_account_id != Some(id) {
            r.push(s.last())
        } else {
            r
        }
    }
}

/// Whether the favicon at an address is fetched, given what the cache holds
/// for it at Unix time `now`: always when nothing is cached; a failed fetch
/// (an empty favicon) is tried again after an hour, a fetched one after a
/// day.
pub open spec fn favicon_due(cached: Option<FaviconCache>, now: int) -> bool {
    match cached {
        None => true,
        Some(c) => {
            let age = now - c.last_sync_timestamp;
            if c.favicon_data@.len() == 0 {
                age > 3600
            } else {
                age > 86400
            }
        },
    }
}

impl AppModel {
    /// Takes the accounts of the current page and all stored accounts. The
    /// page's local accounts that do not report the library's version get it
    /// and are saved; the page lists local accounts first; the form's
    /// account list becomes the stored accounts, with the chosen position
    /// moved back inside it; an account open in the drawer is looked up
    /// again by its identifier among the listed ones.
    pub fn accounts_loaded(&mut self, page: Vec<Account>, stored: Vec<Account>) -> (effects: Vec<
        Effect,
    >)
        ensures
            exists|refreshed: Seq<Account>|
                {
                    &&& versions_refreshed(page@, refreshed)
                    &&& effects@ == version_saves(page@, refreshed)
                    &&& final(self).accounts_view.accounts@ == local_first(refreshed)
                },
            final(self).context_accounts_list == stored,
            final(self).context_selected_account_index == (if old(self).context_selected_account_index >= stored@.len() {
                if stored@.len() == 0 {
                    0
                } else {
                    (stored@.len() - 1) as usize
                }
            } else {
                old(self).context_selected_account_index
            }),
            final(self).context_account == (match old(self).context_account {
                Some(c) => if final(self).accounts_view.accounts@.len() > 0 {
                    find_by_id(final(self).accounts_view.accounts@, c.id)
                } else {
                    old(self).context_account
                },
                None => None,
            }),
            *final(self) == (AppModel {
                accounts_view: PageAccountsView {
                    accounts: final(self).accounts_view.accounts,
                    ..old(self).accounts_view
                },
                context_accounts_list: final(self).context_accounts_list,
                context_selected_account_index: final(self).context_selected_account_index,
                context_account: final(self).context_account,
                ..*old(self)
            }),
    {
        let n = stored.len();
        self.context_accounts_list = stored;
        if self.context_selected_account_index >= n {
            self.context_selected_account_index = if n == 0 {
                0
            } else {
                n - 1
            };
        }
        let (refreshed, saves) = refresh_versions(page);
        self.accounts_view.accounts = order_accounts(refreshed, true);
        if self.accounts_view.accounts.len() > 0 {
            match &self.context_account {
                Some(c) => {
                    let id = c.id;
                    self.context_account = find_account(&self.accounts_view.accounts, id);
                },
                None => {},
            }
        }
        saves
    }

    /// Shows the rows of the accounts page, local accounts first.
    pub fn show_accounts_page(&mut self, rows: Vec<Account>)
        ensures
            final(self).accounts_view.accounts@ == local_first(rows@),
            *final(self) == (AppModel {
                accounts_view: PageAccountsView {
                    accounts: final(self).accounts_view.accounts,
                    ..old(self).accounts_view
                },
                ..*old(self)
            }),
    {
        self.accounts_view.accounts = order_accounts(rows, true);
    }

    /// Removes a stored account: its data is deleted, its bookmarks leave
    /// the list, the user is told, the accounts page is counted and fetched
    /// again, and the bookmarks are reloaded.
    pub fn remove_account(&mut self, account: Account) -> (effects: Vec<Effect>)
        requires
            account.id is Some,
        ensures
            final(self).bookmarks_view.bookmarks@ == without_account(
                old(self).bookmarks_view.bookmarks@,
                account.id->0,
            ),
            *final(self) == (AppModel {
                bookmarks_view: PageBookmarksView {
                    bookmarks: final(self).bookmarks_view.bookmarks,
                    ..old(self).bookmarks_view
                },
                ..*old(self)
            }),
            effects@ == seq![
                Effect::DeleteAccount(account.id->0),
                Effect::Notify(Notice::RemovedAccount(account.display_name)),
                Effect::RecountAccounts,
                Effect::ReloadAccountsPage,
                Effect::Then(ApplicationAction::LoadBookmarks),
            ],
    {
        let id = account.id.unwrap();
        let mut listed: Vec<Bookmark> = Vec::new();
        std::mem::swap(&mut listed, &mut self.bookmarks_view.bookmarks);
        let ghost src = listed@;
        let mut kept: Vec<Bookmark> = Vec::new();
        let n = listed.len();
        let mut i: usize = 0;
        while i < n
            invariant
                n == src.len(),
                i <= n,
                listed@ == src.skip(i as int),
                kept@ == without_account(src.take(i as int), id),
            decreases n - i,
        {
            let b = listed.remove(0);
            proof {
                assert(b == src[i as int]);
                assert(listed@ =~= src.skip(i + 1));
                assert(src.take(i + 1).drop_last() =~= src.take(i as int));
            }
            if b.user_account_id != Some(id) {
                kept.push(b);
            }
            i += 1;
        }
        proof {
            assert(src.take(n as int) =~= src);
        }
        self.bookmarks_view.bookmarks = kept;
        vec![
            Effect::DeleteAccount(id),
            Effect::Notify(Notice::RemovedAccount(account.display_name)),
            Effect::RecountAccounts,
            Effect::ReloadAccountsPage,
            Effect::Then(ApplicationAction::LoadBookmarks),
        ]
    }

    /// Starts loading the bookmarks: the cursor takes the configured order
    /// and says which rows to read.
    pub fn begin_load_bookmarks(&mut self) -> (query: BookmarksQuery)
        requires
            old(self).bookmarks_cursor.current_page >= 1,
            (old(self).bookmarks_cursor.current_page - 1) * old(self).bookmarks_cursor.items_per_page
                <= usize::MAX,
        ensures
            final(self).bookmarks_cursor.sort_option == old(self).config.sort_option,
            final(self).bookmarks_cursor.offset == (old(self).bookmarks_cursor.current_page - 1)
                * old(self).bookmarks_cursor.items_per_page,
            final(self).bookmarks_cursor.current_page == old(self).bookmarks_cursor.current_page,
            final(self).bookmarks_cursor.search_query == old(self).bookmarks_cursor.search_query,
            match old(self).bookmarks_cursor.search_query {
                None => query == BookmarksQuery::Page {
                    limit: old(self).bookmarks_cursor.items_per_page,
                    offset: final(self).bookmarks_cursor.offset,
                    sort: old(self).config.sort_option,
                },
                Some(q) => query == BookmarksQuery::Search {
                    query: q,
                    limit: old(self).bookmarks_cursor.items_per_page,
                    offset: final(self).bookmarks_cursor.offset,
                    sort: old(self).config.sort_option,
                },
            },
            *final(self) == (AppModel { bookmarks_cursor: final(self).bookmarks_cursor, ..*old(self) }),
    {
        self.bookmarks_cursor.sort_option = self.config.sort_option;
        self.bookmarks_cursor.fetch_next_results()
    }

    /// Shows the bookmarks the cursor read; with favicons enabled, each
    /// one's favicon is looked at.
    pub fn bookmarks_loaded(&mut self) -> (effects: Vec<Effect>)
        requires
            old(self).bookmarks_cursor.result is Some,
        ensures
            ({
                let rows = old(self).bookmarks_cursor.result->0@;
                &&& final(self).bookmarks_view.bookmarks@.len() == rows.len()
                &&& forall|k: int|
                    0 <= k < rows.len() ==> #[trigger] final(self).bookmarks_view.bookmarks@[k].same_as(rows[k])
                &&& effects@.len() == (if old(self).config.enable_favicons {
                    rows.len()
                } else {
                    0
                })
                &&& forall|k: int|
                    0 <= k < effects@.len() ==> (#[trigger] effects@[k] matches Effect::Then(
                        ApplicationAction::StartFetchFaviconForBookmark(b),
                    ) && b.same_as(rows[k]))
            }),
            *final(self) == (AppModel {
                bookmarks_view: PageBookmarksView {
                    bookmarks: final(self).bookmarks_view.bookmarks,
                    ..old(self).bookmarks_view
                },
                ..*old(self)
            }),
    {
        let mut listed: Vec<Bookmark> = Vec::new();
        let mut effects: Vec<Effect> = Vec::new();
        let mut i: usize = 0;
        let ghost rows = self.bookmarks_cursor.result->0@;
        match &self.bookmarks_cursor.result {
            Some(result) => {
                while i < result.len()
                    invariant
                        rows == result@,
                        i <= rows.len(),
                        listed@.len() == i,
                        forall|k: int| 0 <= k < i ==> #[trigger] listed@[k].same_as(rows[k]),
                        effects@.len() == (if self.config.enable_favicons {
                            i as int
                        } else {
                            0
                        }),
                        forall|k: int|
                            0 <= k < effects@.len() ==> (#[trigger] effects@[k] matches Effect::Then(
                                ApplicationAction::StartFetchFaviconForBookmark(b),
                            ) && b.same_as(rows[k])),
                    decreases rows.len() - i,
                {
                    if self.config.enable_favicons {
                        effects.push(
                            Effect::Then(
                                ApplicationAction::StartFetchFaviconForBookmark(result[i].duplicate()),
                            ),
                        );
                    }
                    listed.push(result[i].duplicate());
                    i += 1;
                }
            },
            None => {},
        }
        self.bookmarks_view.bookmarks = listed;
        effects
    }

    /// Looks at a bookmark's favicon (`url`) given the cache entry for it and
    /// the Unix time `now`: it is fetched when due.
    pub fn start_fetch_favicon(&mut self, url: String, cached: Option<FaviconCache>, now: i64) -> (effects:
        Vec<Effect>)
        requires
            url@.len() > 0,
            cached matches Some(c) ==> i64::MIN <= now - c.last_sync_timestamp <= i64::MAX,
        ensures
            *final(self) == *old(self),
            effects@ == (if favicon_due(cached, now as int) {
                seq![Effect::FetchFavicon(url)]
            } else {
                seq![]
            }),
    {
        let due = match &cached {
            None => true,
            Some(c) => {
                let age = now - c.last_sync_timestamp;
                if c.favicon_data.len() == 0 {
                    age > 3600
                } else {
                    age > 86400
                }
            },
        };
        if due {
            vec![Effect::FetchFavicon(url)]
        } else {
            Vec::new()
        }
    }

    /// Stores a fetched favicon (empty when the fetch failed) with the time
    /// `now`, and reloads the bookmarks.
    pub fn done_fetch_favicon(&mut self, url: String, bytes: Vec<u8>, now: i64) -> (effects: Vec<
        Effect,
    >)
        ensures
            *final(self) == *old(self),
            effects@.len() == 2,
            effects@[0] matches Effect::StoreFavicon(f) && f.favicon_url == url && f.favicon_data
                == bytes && f.last_sync_timestamp == now,
            effects@[1] == Effect::Then(ApplicationAction::LoadBookmarks),
    {
        vec![
            Effect::StoreFavicon(FaviconCache::new(url, bytes, now)),
            Effect::Then(ApplicationAction::LoadBookmarks),
        ]
    }

    /// Empties the favicon cache.
    pub fn purge_favicons_cache(&mut self) -> (effects: Vec<Effect>)
        ensures
            *final(self) == *old(self),
            effects@ == seq![Effect::PurgeFavicons],
    {
        vec![Effect::PurgeFavicons]
    }
}

/// The address of a bookmark's favicon, if it has one that is not empty.
pub fn favicon_address(bookmark: &Bookmark) -> (res: Option<String>)
    ensures
        res matches Some(u) ==> bookmark.favicon_url == Some(u) && u@.len() > 0,
        res is None ==> (bookmark.favicon_url matches Some(u) ==> u@.len() == 0),
{
    match &bookmark.favicon_url {
        Some(u) => if chars_of(u.as_str()).len() > 0 {
            Some(u.clone())
        } else {
            None
        },
        None => None,
    }
}

// ---------------------------------------------------------------------------
// settings and the rest
// ---------------------------------------------------------------------------

impl AppModel {
    /// Changes the colour scheme: saved, and applied.
    pub fn set_app_theme(&mut self, theme: AppTheme) -> (effects: Vec<Effect>)
        ensures
            *final(self) == (AppModel {
                config: CosmicConfig { app_theme: theme, ..old(self).config },
                ..*old(self)
            }),
            effects@ == seq![Effect::SaveConfig(final(self).config), Effect::ApplyTheme(theme)],
    {
        self.config.app_theme = theme;
        vec![Effect::SaveConfig(self.config), Effect::ApplyTheme(theme)]
    }

    /// Changes the order of the bookmarks: saved, and the bookmarks are
    /// reloaded when any are listed.
    pub fn set_sort_option(&mut self, option: SortOption) -> (effects: Vec<Effect>)
        ensures
            *final(self) == (AppModel {
                config: CosmicConfig { sort_option: option, ..old(self).config },
                ..*old(self)
            }),
            effects@ == seq![Effect::SaveConfig(final(self).config)] + (if old(self).bookmarks_view.bookmarks@.len() > 0 {
                seq![Effect::Then(ApplicationAction::LoadBookmarks)]
            } else {
                seq![]
            }),
    {
        self.config.sort_option = option;
        let mut effects = vec![Effect::SaveConfig(self.config)];
        if self.bookmarks_view.bookmarks.len() > 0 {
            effects.push(Effect::Then(ApplicationAction::LoadBookmarks));
        }
        effects
    }

    /// Changes how many entries a page holds: saved, taken by the bookmarks
    /// cursor, both cursors back on their first page and counted again, and
    /// both lists reloaded.
    pub fn set_items_per_page(&mut self, items_per_page: u8) -> (effects: Vec<Effect>)
        ensures
            final(self).config == (CosmicConfig { items_per_page, ..old(self).config }),
            final(self).bookmarks_cursor == (BookmarksPaginationCursor {
                items_per_page,
                offset: 0,
                current_page: 1,
                ..old(self).bookmarks_cursor
            }),
            final(self).accounts_cursor == (AccountsPaginationCursor {
                offset: 0,
                current_page: 1,
                ..old(self).accounts_cursor
            }),
            *final(self) == (AppModel {
                config: final(self).config,
                bookmarks_cursor: final(self).bookmarks_cursor,
                accounts_cursor: final(self).accounts_cursor,
                ..*old(self)
            }),
            effects@ == seq![
                Effect::SaveConfig(final(self).config),
                Effect::RecountAccounts,
                Effect::RecountBookmarks,
                Effect::Then(ApplicationAction::LoadAccounts),
                Effect::Then(ApplicationAction::LoadBookmarks),
            ],
    {
        self.config.items_per_page = items_per_page;
        self.bookmarks_cursor.items_per_page = items_per_page;
        self.accounts_cursor.refresh_offset(0);
        self.bookmarks_cursor.refresh_offset(0);
        vec![
            Effect::SaveConfig(self.config),
            Effect::RecountAccounts,
            Effect::RecountBookmarks,
            Effect::Then(ApplicationAction::LoadAccounts),
            Effect::Then(ApplicationAction::LoadBookmarks),
        ]
    }

    /// Turns favicons on or off: saved.
    pub fn set_enable_favicons(&mut self, enable: bool) -> (effects: Vec<Effect>)
        ensures
            *final(self) == (AppModel {
                config: CosmicConfig { enable_favicons: enable, ..old(self).config },
                ..*old(self)
            }),
            effects@ == seq![Effect::SaveConfig(final(self).config)],
    {
        self.config.enable_favicons = enable;
        vec![Effect::SaveConfig(self.config)]
    }

    /// Takes settings changed elsewhere.
    pub fn update_config(&mut self, config: CosmicConfig)
        ensures
            *final(self) == (AppModel { config, ..*old(self) }),
    {
        self.config = config;
    }

    /// The desktop's colour scheme changed: the configured theme is applied
    /// again.
    pub fn system_theme_mode_change(&mut self) -> (effects: Vec<Effect>)
        ensures
            *final(self) == *old(self),
            effects@ == seq![Effect::ApplyTheme(old(self).config.app_theme)],
    {
        vec![Effect::ApplyTheme(self.config.app_theme)]
    }

    /// After start-up, the profile of each remote account listed is
    /// refreshed, and a second later the bookmarks of all accounts.
    pub fn startup_completed(&mut self) -> (effects: Vec<Effect>)
        ensures
            *final(self) == *old(self),
            effects@.len() == accounts_where(old(self).accounts_view.accounts@, false).len() + 1,
            forall|k: int|
                0 <= k < accounts_where(old(self).accounts_view.accounts@, false).len()
                    ==> #[trigger] effects@[k] == Effect::Then(
                    ApplicationAction::StartRefreshAccountProfile(
                        accounts_where(old(self).accounts_view.accounts@, false)[k],
                    ),
                ),
            effects@.last() == Effect::After(
                1000,
                ApplicationAction::StartRefreshBookmarksForAllAccounts,
            ),
    {
        let mut effects: Vec<Effect> = Vec::new();
        let mut i: usize = 0;
        let ghost all = self.accounts_view.accounts@;
        while i < self.accounts_view.accounts.len()
            invariant
                all == self.accounts_view.accounts@,
                i <= all.len(),
                effects@.len() == accounts_where(all.take(i as int), false).len(),
                forall|k: int|
                    0 <= k < effects@.len() ==> #[trigger] effects@[k] == Effect::Then(
                        ApplicationAction::StartRefreshAccountProfile(
                            accounts_where(all.take(i as int), false)[k],
                        ),
                    ),
            decreases all.len() - i,
        {
            proof {
                assert(all.take(i + 1).drop_last() =~= all.take(i as int));
            }
            if !self.accounts_view.accounts[i].is_local_provider() {
                effects.push(
                    Effect::Then(
                        ApplicationAction::StartRefreshAccountProfile(
                            self.accounts_view.accounts[i].duplicate(),
                        ),
                    ),
                );
            }
            i += 1;
        }
        proof {
            assert(all.take(all.len() as int) =~= all);
        }
        effects.push(Effect::After(1000, ApplicationAction::StartRefreshBookmarksForAllAccounts));
        effects
    }

    /// Brings the accounts page forward.
    pub fn open_accounts_page(&mut self) -> (effects: Vec<Effect>)
        ensures
            *final(self) == (AppModel { nav_page: AppNavPage::AccountsView, ..*old(self) }),
            effects@ == seq![Effect::ActivateAccountsPage],
    {
        self.nav_page = AppNavPage::AccountsView;
        vec![Effect::ActivateAccountsPage]
    }

    /// Shows the page chosen in the navigation bar.
    pub fn select_nav_page(&mut self, page: AppNavPage)
        ensures
            *final(self) == (AppModel { nav_page: page, ..*old(self) }),
    {
        self.nav_page = page;
    }

    /// Opens an address in the browser.
    pub fn open_external_url(&mut self, url: String) -> (effects: Vec<Effect>)
        ensures
            *final(self) == *old(self),
            effects@ == seq![Effect::OpenUrl(url)],
    {
        vec![Effect::OpenUrl(url)]
    }

    /// Puts the focus in the search field, when the application is ready.
    pub fn search_activate(&mut self) -> (effects: Vec<Effect>)
        ensures
            *final(self) == *old(self),
            effects@ == (if can_add_now(old(self).state) {
                seq![Effect::FocusSearch]
            } else {
                seq![]
            }),
    {
        if self.state == ApplicationState::Ready || self.state
            == ApplicationState::NoEnabledRemoteAccounts {
            vec![Effect::FocusSearch]
        } else {
            Vec::new()
        }
    }
}

// ---------------------------------------------------------------------------
// laws
// ---------------------------------------------------------------------------

/// The tags the bookmark form shows (joined with spaces) read back as the
/// same tags, provided each tag is not empty and holds no space.
pub proof fn lemma_form_tags_round_trip(tags: Seq<Seq<char>>)
    requires
        forall|i: int|
            0 <= i < tags.len() ==> #[trigger] tags[i].len() > 0 && !crate::text::has_char(
                tags[i],
                ' ',
            ),
    ensures
        tags_from_input_spec(join(tags, seq![' '])) == tags,
{
    if tags.len() > 0 {
        crate::utils::bookmark_parser::round_trip::lemma_split_join(tags, ' ');
        if tags.len() > 1 {
            assert(join(tags, seq![' ']) == tags[0] + seq![' '] + join(tags.skip(1), seq![' ']));
        }
        assert(join(tags, seq![' ']).len() > 0);
    } else {
        assert(join(tags, seq![' ']) =~= Seq::<char>::empty());
        assert(tags =~= Seq::<Seq<char>>::empty());
    }
}

/// Opening a dialog while none is shown, then opening any dialog again,
/// closes it: the queue is empty again.
pub proof fn lemma_dialog_toggles(page: DialogPage, other: DialogPage)
    ensures
        open_dialog_spec(open_dialog_spec(seq![], page), other) =~= Seq::<DialogPage>::empty(),
{
}

/// Asking twice for the page that the drawer shows leaves the model as it
/// was; asking twice for another page leaves that page in a shut drawer.
pub proof fn lemma_context_toggle_twice(model: AppModel, page: ContextPage)
    ensures
        page == model.context_page ==> toggled_context(toggled_context(model, page), page)
            == model,
        page != model.context_page ==> toggled_context(toggled_context(model, page), page)
            == (AppModel { context_page: page, show_context: false, ..model }),
{
}

/// Paging forward or back keeps a cursor between the first page and the
/// last: from a page in `[1, total]`, the page that `increment_page_index`
/// and the page that `decrement_page_index` move to are in it too, and
/// paging back from the page after a page that is not the last returns to
/// it.
pub proof fn lemma_paging_in_range(current: usize, total: usize)
    requires
        1 <= current <= total,
    ensures
        1 <= page_after(current, total) <= total,
        1 <= page_before(current) <= total,
        current < total ==> page_before(page_after(current, total)) == current,
        current > 1 ==> page_after(page_before(current), total) == current,
{
}

} // verus!
