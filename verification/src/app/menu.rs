//! The menu bar: its actions, the messages they send, and which entries it
//! shows in which state.
use vstd::prelude::*;

use crate::app::actions::ApplicationAction;
use crate::app::config::SortOption;
use crate::app::context::ContextPage;
use crate::app::ApplicationState;

verus! {

/// An action of the menu bar.
#[derive(Clone, Copy, Debug, Eq, PartialEq, Structural)]
pub enum MenuAction {
    About,
    AddAccount,
    AddBookmark,
    Empty,
    ExportBookmarks,
    ImportBookmarks,
    RefreshBookmarks,
    SearchActivate,
    SetSortBookmarks(SortOption),
    Settings,
}

impl MenuAction {
    /// The message that choosing the action sends.
    pub open spec fn message_spec(self) -> ApplicationAction {
        match self {
            MenuAction::About => ApplicationAction::ToggleContextPage(ContextPage::About),
            MenuAction::AddAccount => ApplicationAction::AddAccountForm,
            MenuAction::AddBookmark => ApplicationAction::AddBookmarkForm,
            MenuAction::Empty => ApplicationAction::Empty,
            MenuAction::ExportBookmarks => ApplicationAction::StartExportBookmarks,
            MenuAction::ImportBookmarks => ApplicationAction::StartImportBookmarks,
            MenuAction::RefreshBookmarks => ApplicationAction::StartRefreshBookmarksForAllAccounts,
            MenuAction::SearchActivate => ApplicationAction::SearchActivate,
            MenuAction::SetSortBookmarks(option) => ApplicationAction::SortOption(option),
            MenuAction::Settings => ApplicationAction::ToggleContextPage(ContextPage::Settings),
        }
    }

    /// The message that choosing the action sends.
    pub fn message(&self) -> (res: ApplicationAction)
        ensures
            res == self.message_spec(),
    {
        match self {
            MenuAction::About => ApplicationAction::ToggleContextPage(ContextPage::About),
            MenuAction::AddAccount => ApplicationAction::AddAccountForm,
            MenuAction::AddBookmark => ApplicationAction::AddBookmarkForm,
            MenuAction::Empty => ApplicationAction::Empty,
            MenuAction::ExportBookmarks => ApplicationAction::StartExportBookmarks,
            MenuAction::ImportBookmarks => ApplicationAction::StartImportBookmarks,
            MenuAction::RefreshBookmarks => ApplicationAction::StartRefreshBookmarksForAllAccounts,
            MenuAction::SearchActivate => ApplicationAction::SearchActivate,
            MenuAction::SetSortBookmarks(option) => ApplicationAction::SortOption(*option),
            MenuAction::Settings => ApplicationAction::ToggleContextPage(ContextPage::Settings),
        }
    }
}

/// The label of a menu entry, by its identifier in the localization
/// catalogue.
#[derive(Clone, Copy, Debug, Eq, PartialEq, Structural)]
pub enum MenuLabel {
    File,
    View,
    Sort,
    AddAccount,
    AddBookmark,
    ExportBookmarks,
    ImportBookmarks,
    RefreshBookmarks,
    About,
    Settings,
    BookmarkDateNewest,
    BookmarkDateOldest,
    BookmarkAlphabeticalAscending,
    BookmarkAlphabeticalDescending,
}

impl MenuLabel {
    /// The identifier of the label in the localization catalogue.
    pub open spec fn id_spec(self) -> Seq<char> {
        match self {
            MenuLabel::File => "file"@,
            MenuLabel::View => "view"@,
            MenuLabel::Sort => "sort"@,
            MenuLabel::AddAccount => "add-account"@,
            MenuLabel::AddBookmark => "add-bookmark"@,
            MenuLabel::ExportBookmarks => "export-bookmarks"@,
            MenuLabel::ImportBookmarks => "import-bookmarks"@,
            MenuLabel::RefreshBookmarks => "refresh-bookmarks"@,
            MenuLabel::About => "about"@,
            MenuLabel::Settings => "settings"@,
            MenuLabel::BookmarkDateNewest => "bookmark-date-newest"@,
            MenuLabel::BookmarkDateOldest => "bookmark-date-oldest"@,
            MenuLabel::BookmarkAlphabeticalAscending => "bookmark-alphabetical-ascending"@,
            MenuLabel::BookmarkAlphabeticalDescending => "bookmark-alphabetical-descending"@,
        }
    }

    /// The identifier of the label in the localization catalogue.
    pub fn id(&self) -> (res: &'static str)
        ensures
            res@ == self.id_spec(),
    {
        match self {
            MenuLabel::File => "file",
            MenuLabel::View => "view",
            MenuLabel::Sort => "sort",
            MenuLabel::AddAccount => "add-account",
            MenuLabel::AddBookmark => "add-bookmark",
            MenuLabel::ExportBookmarks => "export-bookmarks",
            MenuLabel::ImportBookmarks => "import-bookmarks",
            MenuLabel::RefreshBookmarks => "refresh-bookmarks",
            MenuLabel::About => "about",
            MenuLabel::Settings => "settings",
            MenuLabel::BookmarkDateNewest => "bookmark-date-newest",
            MenuLabel::BookmarkDateOldest => "bookmark-date-oldest",
            MenuLabel::BookmarkAlphabeticalAscending => "bookmark-alphabetical-ascending",
            MenuLabel::BookmarkAlphabeticalDescending => "bookmark-alphabetical-descending",
        }
    }
}

/// An entry of a menu: a button that can be chosen, one that is greyed out,
/// a check box with its state, or a divider.
#[derive(Clone, Copy, Debug, Eq, PartialEq, Structural)]
pub enum MenuEntry {
    Button(MenuLabel, MenuAction),
    ButtonDisabled(MenuLabel, MenuAction),
    CheckBox(MenuLabel, bool, MenuAction),
    Divider,
}

/// Whether new accounts and bookmarks can be added: when the application is
/// ready, with or without enabled remote accounts.
pub open spec fn can_add(state: ApplicationState) -> bool {
    state == ApplicationState::Ready || state == ApplicationState::NoEnabledRemoteAccounts
}

/// The entries of the File menu: adding an account and a bookmark when
/// `can_add`, exporting and refreshing when there are bookmarks and the
/// application is ready, importing when it is ready.
pub open spec fn file_menu_spec(bookmarks_present: bool, state: ApplicationState) -> Seq<MenuEntry> {
    let ready = state == ApplicationState::Ready;
    seq![
        if can_add(state) {
            MenuEntry::Button(MenuLabel::AddAccount, MenuAction::AddAccount)
        } else {
            MenuEntry::ButtonDisabled(MenuLabel::AddAccount, MenuAction::AddAccount)
        },
        if can_add(state) {
            MenuEntry::Button(MenuLabel::AddBookmark, MenuAction::AddBookmark)
        } else {
            MenuEntry::ButtonDisabled(MenuLabel::AddBookmark, MenuAction::AddBookmark)
        },
        MenuEntry::Divider,
        if bookmarks_present && ready {
            MenuEntry::Button(MenuLabel::ExportBookmarks, MenuAction::ExportBookmarks)
        } else {
            MenuEntry::ButtonDisabled(MenuLabel::ExportBookmarks, MenuAction::Empty)
        },
        if ready {
            MenuEntry::Button(MenuLabel::ImportBookmarks, MenuAction::ImportBookmarks)
        } else {
            MenuEntry::ButtonDisabled(MenuLabel::ImportBookmarks, MenuAction::Empty)
        },
        MenuEntry::Divider,
        if bookmarks_present && ready {
            MenuEntry::Button(MenuLabel::RefreshBookmarks, MenuAction::RefreshBookmarks)
        } else {
            MenuEntry::ButtonDisabled(MenuLabel::RefreshBookmarks, MenuAction::Empty)
        },
    ]
}

/// The entries of the View menu.
pub open spec fn view_menu_spec() -> Seq<MenuEntry> {
    seq![
        MenuEntry::Button(MenuLabel::About, MenuAction::About),
        MenuEntry::Button(MenuLabel::Settings, MenuAction::Settings),
    ]
}

/// One sort order as a check box, ticked when it is the current order.
pub open spec fn sort_entry(label: MenuLabel, option: SortOption, current: SortOption) -> MenuEntry {
    MenuEntry::CheckBox(label, current == option, MenuAction::SetSortBookmarks(option))
}

/// The entries of the Sort menu: the four orders as check boxes when there
/// are bookmarks, else greyed out.
pub open spec fn sort_menu_spec(bookmarks_present: bool, current: SortOption) -> Seq<MenuEntry> {
    if bookmarks_present {
        seq![
            sort_entry(MenuLabel::BookmarkDateNewest, SortOption::BookmarksDateNewest, current),
            sort_entry(MenuLabel::BookmarkDateOldest, SortOption::BookmarksDateOldest, current),
            MenuEntry::Divider,
            sort_entry(
                MenuLabel::BookmarkAlphabeticalAscending,
                SortOption::BookmarkAlphabeticalAscending,
                current,
            ),
            sort_entry(
                MenuLabel::BookmarkAlphabeticalDescending,
                SortOption::BookmarkAlphabeticalDescending,
                current,
            ),
        ]
    } else {
        seq![
            MenuEntry::ButtonDisabled(MenuLabel::BookmarkDateNewest, MenuAction::Empty),
            MenuEntry::ButtonDisabled(MenuLabel::BookmarkDateOldest, MenuAction::Empty),
            MenuEntry::Divider,
            MenuEntry::ButtonDisabled(MenuLabel::BookmarkAlphabeticalAscending, MenuAction::Empty),
            MenuEntry::ButtonDisabled(MenuLabel::BookmarkAlphabeticalDescending, MenuAction::Empty),
        ]
    }
}

/// One menu of the bar: its title and its entries.
#[derive(Clone, Debug)]
pub struct MenuTree {
    pub title: MenuLabel,
    pub entries: Vec<MenuEntry>,
}

fn sort_check(label: MenuLabel, option: SortOption, current: SortOption) -> (res: MenuEntry)
    ensures
        res == sort_entry(label, option, current),
{
    MenuEntry::CheckBox(label, current == option, MenuAction::SetSortBookmarks(option))
}

/// The menus of the bar, File, View and Sort, with their entries.
pub fn menu_bar(bookmarks_present: bool, sort_option: SortOption, app_state: ApplicationState) -> (res:
    Vec<MenuTree>)
    ensures
        res@.len() == 3,
        res@[0].title == MenuLabel::File,
        res@[0].entries@ == file_menu_spec(bookmarks_present, app_state),
        res@[1].title == MenuLabel::View,
        res@[1].entries@ == view_menu_spec(),
        res@[2].title == MenuLabel::Sort,
        res@[2].entries@ == sort_menu_spec(bookmarks_present, sort_option),
{
    let can_add = app_state == ApplicationState::Ready || app_state
        == ApplicationState::NoEnabledRemoteAccounts;
    let ready = app_state == ApplicationState::Ready;
    let file = vec![
        if can_add {
            MenuEntry::Button(MenuLabel::AddAccount, MenuAction::AddAccount)
        } else {
            MenuEntry::ButtonDisabled(MenuLabel::AddAccount, MenuAction::AddAccount)
        },
        if can_add {
            MenuEntry::Button(MenuLabel::AddBookmark, MenuAction::AddBookmark)
        } else {
            MenuEntry::ButtonDisabled(MenuLabel::AddBookmark, MenuAction::AddBookmark)
        },
        MenuEntry::Divider,
        if bookmarks_present && ready {
            MenuEntry::Button(MenuLabel::ExportBookmarks, MenuAction::ExportBookmarks)
        } else {
            MenuEntry::ButtonDisabled(MenuLabel::ExportBookmarks, MenuAction::Empty)
        },
        if ready {
            MenuEntry::Button(MenuLabel::ImportBookmarks, MenuAction::ImportBookmarks)
        } else {
            MenuEntry::ButtonDisabled(MenuLabel::ImportBookmarks, MenuAction::Empty)
        },
        MenuEntry::Divider,
        if bookmarks_present && ready {
            MenuEntry::Button(MenuLabel::RefreshBookmarks, MenuAction::RefreshBookmarks)
        } else {
            MenuEntry::ButtonDisabled(MenuLabel::RefreshBookmarks, MenuAction::Empty)
        },
    ];
    assert(file@ =~= file_menu_spec(bookmarks_present, app_state));
    let view = vec![
        MenuEntry::Button(MenuLabel::About, MenuAction::About),
        MenuEntry::Button(MenuLabel::Settings, MenuAction::Settings),
    ];
    assert(view@ =~= view_menu_spec());
    let sort = if bookmarks_present {
        vec![
            sort_check(
                MenuLabel::BookmarkDateNewest,
                SortOption::BookmarksDateNewest,
                sort_option,
            ),
            sort_check(
                MenuLabel::BookmarkDateOldest,
                SortOption::BookmarksDateOldest,
                sort_option,
            ),
            MenuEntry::Divider,
            sort_check(
                MenuLabel::BookmarkAlphabeticalAscending,
                SortOption::BookmarkAlphabeticalAscending,
                sort_option,
            ),
            sort_check(
                MenuLabel::BookmarkAlphabeticalDescending,
                SortOption::BookmarkAlphabeticalDescending,
                sort_option,
            ),
        ]
    } else {
        vec![
            MenuEntry::ButtonDisabled(MenuLabel::BookmarkDateNewest, MenuAction::Empty),
            MenuEntry::ButtonDisabled(MenuLabel::BookmarkDateOldest, MenuAction::Empty),
            MenuEntry::Divider,
            MenuEntry::ButtonDisabled(MenuLabel::BookmarkAlphabeticalAscending, MenuAction::Empty),
            MenuEntry::ButtonDisabled(MenuLabel::BookmarkAlphabeticalDescending, MenuAction::Empty),
        ]
    };
    assert(sort@ =~= sort_menu_spec(bookmarks_present, sort_option));
    vec![
        MenuTree { title: MenuLabel::File, entries: file },
        MenuTree { title: MenuLabel::View, entries: view },
        MenuTree { title: MenuLabel::Sort, entries: sort },
    ]
}

} // verus!
