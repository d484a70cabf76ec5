//! The bookmarks page.
use vstd::prelude::*;

use crate::app::actions::{ApplicationAction, BookmarksAction};
use crate::app::ApplicationState;
use crate::db::encode_tags;
use crate::models::account::Account;
use crate::models::bookmarks::Bookmark;
use crate::models::provider::Provider;
use crate::pages::{field_spec, text_field, TextField, TextInput, ToggleInput};
use crate::text::{append_chars, chars_of, join, string_of, texts};

verus! {

/// The state of the bookmarks page: the bookmarks it lists, the bookmark
/// last chosen for editing, and the text in the search field.
#[derive(Debug, Clone)]
pub struct PageBookmarksView {
    pub bookmark_placeholder: Option<Bookmark>,
    pub bookmarks: Vec<Bookmark>,
    pub query_placeholder: String,
}

impl Default for PageBookmarksView {
    fn default() -> (res: Self)
        ensures
            res.bookmark_placeholder is None,
            res.bookmarks@.len() == 0,
            res.query_placeholder@.len() == 0,
    {
        PageBookmarksView {
            bookmark_placeholder: None,
            bookmarks: Vec::new(),
            query_placeholder: String::new(),
        }
    }
}

/// The message that a message of the bookmarks page turns into, if any.
pub open spec fn bookmarks_message_spec(
    message: BookmarksAction,
    query_before: Seq<char>,
    res: Option<ApplicationAction>,
) -> bool {
    match message {
        BookmarksAction::OpenAccountsPage => res == Some(ApplicationAction::OpenAccountsPage),
        BookmarksAction::RefreshBookmarks => res == Some(
            ApplicationAction::StartRefreshBookmarksForAllAccounts,
        ),
        BookmarksAction::AddBookmark => res == Some(ApplicationAction::AddBookmarkForm),
        BookmarksAction::CancelImport(id) => res == Some(
            ApplicationAction::CancelImportBookmarks(id),
        ),
        BookmarksAction::DeleteBookmark(id, b) => res == Some(
            ApplicationAction::OpenRemoveBookmarkDialog(id, b),
        ),
        BookmarksAction::EditBookmark(id, b) => res == Some(
            ApplicationAction::EditBookmarkForm(id, b),
        ),
        BookmarksAction::SearchBookmarks(q) => res == Some(ApplicationAction::SearchBookmarks(q)),
        BookmarksAction::ClearSearch => if query_before.len() > 0 {
            res matches Some(ApplicationAction::SearchBookmarks(q)) && q@.len() == 0
        } else {
            res is None
        },
        BookmarksAction::OpenExternalURL(url) => res == Some(
            ApplicationAction::OpenExternalUrl(url),
        ),
        BookmarksAction::ViewNotes(b) => res == Some(ApplicationAction::ViewBookmarkNotes(b)),
        BookmarksAction::EmptyMessage => res == Some(ApplicationAction::Empty),
        BookmarksAction::IncrementPageIndex => res matches Some(
            ApplicationAction::IncrementPageIndex(k),
        ) && k@ == "bookmarks"@,
        BookmarksAction::DecrementPageIndex => res matches Some(
            ApplicationAction::DecrementPageIndex(k),
        ) && k@ == "bookmarks"@,
    }
}

impl PageBookmarksView {
    /// Handles a message of the page: each one is passed on to the
    /// application as the message that does the work. Editing remembers the
    /// bookmark; a search remembers its text; clearing the search empties the
    /// text and searches for nothing, unless the text was empty already.
    pub fn update(&mut self, message: BookmarksAction) -> (res: Option<ApplicationAction>)
        ensures
            bookmarks_message_spec(message, old(self).query_placeholder@, res),
            final(self).bookmarks == old(self).bookmarks,
            match message {
                BookmarksAction::EditBookmark(_, b) => final(self).bookmark_placeholder matches Some(
                    p,
                ) && p.same_as(b),
                _ => final(self).bookmark_placeholder == old(self).bookmark_placeholder,
            },
            final(self).query_placeholder@ == (match message {
                BookmarksAction::SearchBookmarks(q) => q@,
                BookmarksAction::ClearSearch => Seq::<char>::empty(),
                _ => old(self).query_placeholder@,
            }),
    {
        match message {
            BookmarksAction::OpenAccountsPage => Some(ApplicationAction::OpenAccountsPage),
            BookmarksAction::RefreshBookmarks => Some(
                ApplicationAction::StartRefreshBookmarksForAllAccounts,
            ),
            BookmarksAction::AddBookmark => Some(ApplicationAction::AddBookmarkForm),
            BookmarksAction::CancelImport(id) => Some(ApplicationAction::CancelImportBookmarks(id)),
            BookmarksAction::DeleteBookmark(id, b) => Some(
                ApplicationAction::OpenRemoveBookmarkDialog(id, b),
            ),
            BookmarksAction::EditBookmark(id, b) => {
                self.bookmark_placeholder = Some(b.duplicate());
                Some(ApplicationAction::EditBookmarkForm(id, b))
            },
            BookmarksAction::SearchBookmarks(q) => {
                self.query_placeholder = q.clone();
                Some(ApplicationAction::SearchBookmarks(q))
            },
            BookmarksAction::ClearSearch => {
                if chars_of(self.query_placeholder.as_str()).len() > 0 {
                    self.query_placeholder = String::new();
                    Some(ApplicationAction::SearchBookmarks(String::new()))
                } else {
                    None
                }
            },
            BookmarksAction::OpenExternalURL(url) => Some(ApplicationAction::OpenExternalUrl(url)),
            BookmarksAction::ViewNotes(b) => Some(ApplicationAction::ViewBookmarkNotes(b)),
            BookmarksAction::EmptyMessage => Some(ApplicationAction::Empty),
            BookmarksAction::IncrementPageIndex => Some(
                ApplicationAction::IncrementPageIndex(string_of(&chars_of("bookmarks"))),
            ),
            BookmarksAction::DecrementPageIndex => Some(
                ApplicationAction::DecrementPageIndex(string_of(&chars_of("bookmarks"))),
            ),
        }
    }
}

/// The tags of a bookmark as its row shows them: each with a leading `#`,
/// separated by spaces.
pub open spec fn tags_line_spec(tags: Seq<String>) -> Seq<char> {
    join(tags.map_values(|t: String| seq!['#'] + t@), seq![' '])
}

/// The tags of a bookmark as its row shows them.
pub fn tags_line(tags: &Vec<String>) -> (res: String)
    ensures
        res@ == tags_line_spec(tags@),
{
    let mut out: Vec<char> = Vec::new();
    let mut i: usize = 0;
    let ghost all = tags@.map_values(|t: String| seq!['#'] + t@);
    while i < tags.len()
        invariant
            i <= tags@.len(),
            all == tags@.map_values(|t: String| seq!['#'] + t@),
            out@ == join(all.take(i as int), seq![' ']),
        decreases tags.len() - i,
    {
        proof {
            lemma_join_push(all.take(i as int), all[i as int], seq![' ']);
            assert(all.take(i + 1) =~= all.take(i as int).push(all[i as int]));
        }
        if i > 0 {
            out.push(' ');
        }
        out.push('#');
        append_chars(&mut out, &chars_of(tags[i].as_str()));
        proof {
            if i > 0 {
                assert(out@ =~= join(all.take(i as int), seq![' ']) + seq![' '] + all[i as int]);
            } else {
                assert(out@ =~= all[i as int]);
            }
        }
        i += 1;
    }
    proof {
        assert(all.take(tags@.len() as int) =~= all);
    }
    string_of(&out)
}

/// Joining one more part adds the separator and the part, unless nothing
/// was joined before.
proof fn lemma_join_push(parts: Seq<Seq<char>>, p: Seq<char>, sep: Seq<char>)
    ensures
        join(parts.push(p), sep) == (if parts.len() == 0 {
            p
        } else {
            join(parts, sep) + sep + p
        }),
    decreases parts.len(),
{
    let q = parts.push(p);
    if parts.len() == 0 {
        assert(q.len() == 1);
        assert(q[0] == p);
    } else if parts.len() == 1 {
        assert(q.skip(1) =~= seq![p]);
        assert(join(seq![p], sep) == p);
        assert(q[0] == parts[0]);
        assert(join(q, sep) == q[0] + sep + join(q.skip(1), sep));
    } else {
        lemma_join_push(parts.skip(1), p, sep);
        assert(q.skip(1) =~= parts.skip(1).push(p));
        assert(q[0] == parts[0]);
        assert(join(q, sep) == q[0] + sep + join(q.skip(1), sep));
        assert(join(parts, sep) == parts[0] + sep + join(parts.skip(1), sep));
        assert(join(parts, sep) + sep + p =~= parts[0] + sep + (join(parts.skip(1), sep) + sep + p));
    }
}

/// How a shared bookmark is labelled: as shared by the account when the
/// account owns it, as shared with the account otherwise.
#[derive(Debug, Clone, Copy, PartialEq, Eq, Structural)]
pub enum SharedLabel {
    Sharing,
    Shared,
}

/// What the row of one bookmark shows: the description when there is one,
/// the tags when there are any, the buttons that the bookmark offers and
/// whether they can be pressed (not while refreshing), the badges, and
/// whether its cached favicon is shown (when one with data is cached) or a
/// placeholder.
#[derive(Debug, Clone)]
pub struct BookmarkRow {
    pub show_description: bool,
    pub tags: Option<String>,
    pub can_edit_and_remove: bool,
    pub has_notes: bool,
    pub has_snapshot: bool,
    pub actions_enabled: bool,
    pub archived: bool,
    pub unread: bool,
    pub shared: Option<SharedLabel>,
    pub cached_favicon: bool,
}

/// The row of one bookmark in the state `state`. Only a bookmark the
/// account owns can be edited and removed.
pub fn bookmark_row(bookmark: &Bookmark, state: ApplicationState) -> (res: BookmarkRow)
    ensures
        res.show_description == (bookmark.description@.len() > 0),
        res.tags matches Some(t) ==> t@ == tags_line_spec(bookmark.tag_names@),
        res.tags is None <==> bookmark.tag_names@.len() == 0,
        res.can_edit_and_remove == (bookmark.is_owner == Some(true)),
        res.has_notes == (bookmark.notes@.len() > 0),
        res.has_snapshot == (bookmark.web_archive_snapshot_url@.len() > 0),
        res.actions_enabled == (state != ApplicationState::Refreshing),
        res.archived == bookmark.is_archived,
        res.unread == bookmark.unread,
        res.shared == (if !bookmark.shared {
            None
        } else if bookmark.is_owner == Some(true) {
            Some(SharedLabel::Sharing)
        } else {
            Some(SharedLabel::Shared)
        }),
        res.cached_favicon == (bookmark.favicon_cached matches Some(c) && c.favicon_data@.len()
            > 0),
{
    let cached_favicon = match &bookmark.favicon_cached {
        Some(c) => c.favicon_data.len() > 0,
        None => false,
    };
    let owner = match bookmark.is_owner {
        Some(b) => b,
        None => false,
    };
    BookmarkRow {
        show_description: chars_of(bookmark.description.as_str()).len() > 0,
        tags: if bookmark.tag_names.len() > 0 {
            Some(tags_line(&bookmark.tag_names))
        } else {
            None
        },
        can_edit_and_remove: owner,
        has_notes: chars_of(bookmark.notes.as_str()).len() > 0,
        has_snapshot: chars_of(bookmark.web_archive_snapshot_url.as_str()).len() > 0,
        actions_enabled: state != ApplicationState::Refreshing,
        archived: bookmark.is_archived,
        unread: bookmark.unread,
        shared: if !bookmark.shared {
            None
        } else if owner {
            Some(SharedLabel::Sharing)
        } else {
            Some(SharedLabel::Shared)
        },
        cached_favicon,
    }
}

/// Whether the page's refresh button can be pressed: not during a search,
/// not without bookmarks, not while refreshing and not without enabled
/// remote accounts.
pub fn refresh_enabled(view: &PageBookmarksView, state: ApplicationState) -> (res: bool)
    ensures
        res == !(view.query_placeholder@.len() > 0 || view.bookmarks@.len() == 0 || state
            == ApplicationState::Refreshing || state == ApplicationState::NoEnabledRemoteAccounts),
{
    !(chars_of(view.query_placeholder.as_str()).len() > 0 || view.bookmarks.len() == 0 || state
        == ApplicationState::Refreshing || state == ApplicationState::NoEnabledRemoteAccounts)
}

/// Whether the page's button for adding a bookmark can be pressed: when the
/// application is ready, with or without enabled remote accounts.
pub fn add_bookmark_enabled(state: ApplicationState) -> (res: bool)
    ensures
        res == (state == ApplicationState::Ready || state
            == ApplicationState::NoEnabledRemoteAccounts),
{
    state == ApplicationState::Ready || state == ApplicationState::NoEnabledRemoteAccounts
}

// ---------------------------------------------------------------------------
// the bookmark forms
// ---------------------------------------------------------------------------

/// How a switch of the bookmark form is labelled.
#[derive(Debug, Clone, Copy, PartialEq, Eq, Structural)]
pub enum SwitchLabel {
    /// Its own name (`archived`, `unread`, `shared`).
    Plain,
    /// Its name marked as disabled: a local account keeps no such state.
    DisabledForLocal,
    /// The note that the account does not allow sharing (`shared-disabled`).
    SharingDisabled,
}

/// A switch of the bookmark form: its position, the message it sends when
/// flipped (none while it cannot be flipped), and its label.
#[derive(Debug, Clone, Copy, PartialEq, Eq, Structural)]
pub struct FormSwitch {
    pub on: bool,
    pub sends: Option<ToggleInput>,
    pub label: SwitchLabel,
}

/// The archived and unread switches (`input` is which of the two): usable
/// for remote accounts only.
pub open spec fn state_switch_spec(on: bool, input: ToggleInput, account: Account) -> FormSwitch {
    if account.provider == Provider::Cosmicding {
        FormSwitch { on, sends: None, label: SwitchLabel::DisabledForLocal }
    } else {
        FormSwitch { on, sends: Some(input), label: SwitchLabel::Plain }
    }
}

/// The shared switch: usable for remote accounts that allow sharing.
pub open spec fn shared_switch_spec(on: bool, account: Account) -> FormSwitch {
    if account.provider == Provider::Cosmicding {
        FormSwitch { on, sends: None, label: SwitchLabel::DisabledForLocal }
    } else if account.enable_sharing {
        FormSwitch { on, sends: Some(ToggleInput::BookmarkShared), label: SwitchLabel::Plain }
    } else {
        FormSwitch { on, sends: None, label: SwitchLabel::SharingDisabled }
    }
}

fn state_switch(on: bool, input: ToggleInput, account: &Account) -> (res: FormSwitch)
    ensures
        res == state_switch_spec(on, input, *account),
{
    if account.is_local_provider() {
        FormSwitch { on, sends: None, label: SwitchLabel::DisabledForLocal }
    } else {
        FormSwitch { on, sends: Some(input), label: SwitchLabel::Plain }
    }
}

fn shared_switch(on: bool, account: &Account) -> (res: FormSwitch)
    ensures
        res == shared_switch_spec(on, *account),
{
    if account.is_local_provider() {
        FormSwitch { on, sends: None, label: SwitchLabel::DisabledForLocal }
    } else if account.enable_sharing {
        FormSwitch { on, sends: Some(ToggleInput::BookmarkShared), label: SwitchLabel::Plain }
    } else {
        FormSwitch { on, sends: None, label: SwitchLabel::SharingDisabled }
    }
}

/// What the form for a bookmark of an account shows: the account's name;
/// for a new bookmark, the names of the accounts it can go to (choosing the
/// one at a position sends `AddBookmarkFormAccountIndex` with it, see
/// `choose_account`); the URL, title, description, notes and tags (joined
/// with single spaces) inputs, each with the message it sends; the three
/// switches; and the message that saving sends.
#[derive(Debug, Clone)]
pub struct BookmarkForm {
    pub account_name: String,
    pub account_choice: Option<Vec<String>>,
    pub url: TextField,
    pub title: TextField,
    pub description: TextField,
    pub notes: TextField,
    pub tags: TextField,
    pub archived: FormSwitch,
    pub unread: FormSwitch,
    pub shared: FormSwitch,
    pub save: ApplicationAction,
}

/// The display names of the accounts, in order.
pub open spec fn account_names_spec(accounts: Seq<Account>) -> Seq<Seq<char>> {
    accounts.map_values(|a: Account| a.display_name@)
}

fn account_names(accounts: &Vec<Account>) -> (res: Vec<String>)
    ensures
        texts(res@) == account_names_spec(accounts@),
{
    let mut res: Vec<String> = Vec::new();
    let mut i: usize = 0;
    while i < accounts.len()
        invariant
            i <= accounts@.len(),
            texts(res@) == account_names_spec(accounts@.take(i as int)),
        decreases accounts.len() - i,
    {
        let name = accounts[i].display_name.clone();
        let ghost before = res@;
        res.push(name);
        proof {
            assert(accounts@.take(i + 1) =~= accounts@.take(i as int).push(accounts@[i as int]));
            assert(texts(res@) =~= texts(before).push(name@));
            assert(account_names_spec(accounts@.take(i + 1)) =~= account_names_spec(
                accounts@.take(i as int),
            ).push(accounts@[i as int].display_name@));
        }
        i += 1;
    }
    assert(accounts@.take(accounts@.len() as int) =~= accounts@);
    res
}

/// The message sent when the account at `index` is chosen in the form for a
/// new bookmark.
pub fn choose_account(index: usize) -> (res: ApplicationAction)
    ensures
        res == ApplicationAction::AddBookmarkFormAccountIndex(index),
{
    ApplicationAction::AddBookmarkFormAccountIndex(index)
}

/// `form` shows `bookmark` of `account`: the text inputs send
/// `SetBookmarkURL`, `SetBookmarkTitle`, `InputBookmarkDescription`,
/// `InputBookmarkNotes` and `SetBookmarkTags`.
pub open spec fn bookmark_form_spec(form: BookmarkForm, bookmark: Bookmark, account: Account) -> bool {
    &&& form.account_name@ == account.display_name@
    &&& field_spec(form.url, bookmark.url@, false, TextInput::BookmarkUrl)
    &&& field_spec(form.title, bookmark.title@, false, TextInput::BookmarkTitle)
    &&& field_spec(form.description, bookmark.description@, false, TextInput::BookmarkDescription)
    &&& field_spec(form.notes, bookmark.notes@, false, TextInput::BookmarkNotes)
    &&& field_spec(
        form.tags,
        join(texts(bookmark.tag_names@), seq![' ']),
        false,
        TextInput::BookmarkTags,
    )
    &&& form.archived == state_switch_spec(bookmark.is_archived, ToggleInput::BookmarkArchived, account)
    &&& form.unread == state_switch_spec(bookmark.unread, ToggleInput::BookmarkUnread, account)
    &&& form.shared == shared_switch_spec(bookmark.shared, account)
}

/// The form for a new bookmark.
#[derive(Debug, Clone)]
pub enum NewBookmarkForm {
    /// No account can be chosen: the form offers to open the accounts page
    /// (`OpenAccountsPage`).
    NoAccount,
    /// The form for the chosen account, by its position in the list.
    Form(usize, BookmarkForm),
}

/// `res` is the form for the new bookmark `bookmark` in the account at
/// `index` of `accounts`, or, without an account there, the offer to add one.
pub open spec fn new_bookmark_form_spec(
    res: NewBookmarkForm,
    bookmark: Bookmark,
    accounts: Seq<Account>,
    index: usize,
) -> bool {
    if index >= accounts.len() {
        res is NoAccount
    } else {
        &&& res matches NewBookmarkForm::Form(i, f)
        &&& i == index
        &&& bookmark_form_spec(f, bookmark, accounts[index as int])
        &&& f.account_choice matches Some(names) && texts(names@) == account_names_spec(accounts)
        &&& f.save matches ApplicationAction::StartAddBookmark(a, b, context, rest)
        &&& a == accounts[index as int]
        &&& b == bookmark
        &&& context is None
        &&& rest@.len() == 0
    }
}

/// `res` is the form for editing `bookmark` of `account`; the account is
/// shown and cannot be changed.
pub open spec fn edited_bookmark_form_spec(res: BookmarkForm, bookmark: Bookmark, account: Account) -> bool {
    &&& bookmark_form_spec(res, bookmark, account)
    &&& res.account_choice is None
    &&& res.save == ApplicationAction::StartEditBookmark(account, bookmark)
}

fn bookmark_fields(bookmark: &Bookmark) -> (res: (TextField, TextField, TextField, TextField, TextField))
    ensures
        field_spec(res.0, bookmark.url@, false, TextInput::BookmarkUrl),
        field_spec(res.1, bookmark.title@, false, TextInput::BookmarkTitle),
        field_spec(res.2, bookmark.description@, false, TextInput::BookmarkDescription),
        field_spec(res.3, bookmark.notes@, false, TextInput::BookmarkNotes),
        field_spec(res.4, join(texts(bookmark.tag_names@), seq![' ']), false, TextInput::BookmarkTags),
{
    let tags = encode_tags(&bookmark.tag_names);
    (
        text_field(&bookmark.url, TextInput::BookmarkUrl),
        text_field(&bookmark.title, TextInput::BookmarkTitle),
        text_field(&bookmark.description, TextInput::BookmarkDescription),
        text_field(&bookmark.notes, TextInput::BookmarkNotes),
        TextField { text: tags, hidden: false, sends: TextInput::BookmarkTags },
    )
}

/// The form for a new bookmark in one of `accounts`, the one at
/// `selected_account_index`: saving adds the bookmark to that account.
/// Without an account at that position the form only offers to add one.
pub fn new_bookmark(bookmark: Bookmark, accounts: &Vec<Account>, selected_account_index: usize) -> (res:
    NewBookmarkForm)
    ensures
        new_bookmark_form_spec(res, bookmark, accounts@, selected_account_index),
{
    if accounts.len() == 0 || selected_account_index >= accounts.len() {
        return NewBookmarkForm::NoAccount;
    }
    let account = &accounts[selected_account_index];
    let (url, title, description, notes, tags) = bookmark_fields(&bookmark);
    let archived = state_switch(bookmark.is_archived, ToggleInput::BookmarkArchived, account);
    let unread = state_switch(bookmark.unread, ToggleInput::BookmarkUnread, account);
    let shared = shared_switch(bookmark.shared, account);
    let names = account_names(accounts);
    let save = ApplicationAction::StartAddBookmark(account.duplicate(), bookmark, None, Vec::new());
    NewBookmarkForm::Form(
        selected_account_index,
        BookmarkForm {
            account_name: account.display_name.clone(),
            account_choice: Some(names),
            url,
            title,
            description,
            notes,
            tags,
            archived,
            unread,
            shared,
            save,
        },
    )
}

/// The form for editing a bookmark of `account`: saving sends the edited
/// bookmark to the account.
pub fn edit_bookmark(bookmark: Bookmark, account: &Account) -> (res: BookmarkForm)
    ensures
        edited_bookmark_form_spec(res, bookmark, *account),
{
    let (url, title, description, notes, tags) = bookmark_fields(&bookmark);
    let archived = state_switch(bookmark.is_archived, ToggleInput::BookmarkArchived, account);
    let unread = state_switch(bookmark.unread, ToggleInput::BookmarkUnread, account);
    let shared = shared_switch(bookmark.shared, account);
    BookmarkForm {
        account_name: account.display_name.clone(),
        account_choice: None,
        url,
        title,
        description,
        notes,
        tags,
        archived,
        unread,
        shared,
        save: ApplicationAction::StartEditBookmark(account.duplicate(), bookmark),
    }
}

} // verus!
