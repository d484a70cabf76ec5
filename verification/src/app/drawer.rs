//! What the context drawer shows for each of its pages.
use vstd::prelude::*;

use crate::app::config::CosmicConfig;
use crate::app::context::ContextPage;
use crate::app::model::AppModel;
use crate::models::bookmarks::Bookmark;
use crate::pages::accounts::{
    add_account, edit_account, edited_account_form_spec, new_account_form_spec, AccountForm,
};
use crate::pages::bookmarks::{
    edit_bookmark, edited_bookmark_form_spec, new_bookmark, new_bookmark_form_spec, BookmarkForm,
    NewBookmarkForm,
};

verus! {

/// The fewest entries a page can be set to hold.
pub const MIN_ITEMS_PER_PAGE: u8 = 5;

/// The most entries a page can be set to hold.
pub const MAX_ITEMS_PER_PAGE: u8 = 50;

/// What the settings page shows: the position of the theme in the list
/// "match desktop, dark, light", the page size on a slider from
/// `MIN_ITEMS_PER_PAGE` to `MAX_ITEMS_PER_PAGE`, and whether favicons are
/// shown.
#[derive(Debug, Clone, Copy, PartialEq, Eq, Structural)]
pub struct SettingsView {
    pub theme_index: usize,
    pub items_per_page: u8,
    pub items_min: u8,
    pub items_max: u8,
    pub enable_favicons: bool,
}

/// The settings page for the settings `config`.
pub open spec fn settings_spec(config: CosmicConfig) -> SettingsView {
    SettingsView {
        theme_index: config.app_theme.settings_index_spec(),
        items_per_page: config.items_per_page,
        items_min: MIN_ITEMS_PER_PAGE,
        items_max: MAX_ITEMS_PER_PAGE,
        enable_favicons: config.enable_favicons,
    }
}

/// The content of the context drawer.
#[derive(Debug, Clone)]
pub enum DrawerContent {
    About,
    Settings(SettingsView),
    AddAccount(AccountForm),
    EditAccount(AccountForm),
    NewBookmark(NewBookmarkForm),
    EditBookmark(BookmarkForm),
    Notes,
}

/// Whether the model holds what the drawer's page shows: the account for the
/// account forms, the bookmark for the bookmark forms, and both for editing
/// a bookmark.
pub open spec fn drawer_ready(m: AppModel) -> bool {
    m.show_context ==> match m.context_page {
        ContextPage::AddAccountForm | ContextPage::EditAccountForm => m.context_account is Some,
        ContextPage::NewBookmarkForm => m.context_bookmark is Some,
        ContextPage::EditBookmarkForm => m.context_bookmark is Some && m.context_account is Some,
        _ => true,
    }
}

impl AppModel {
    /// The settings page.
    pub fn settings(&self) -> (res: SettingsView)
        ensures
            res == settings_spec(self.config),
    {
        SettingsView {
            theme_index: self.config.app_theme.settings_index(),
            items_per_page: self.config.items_per_page,
            items_min: MIN_ITEMS_PER_PAGE,
            items_max: MAX_ITEMS_PER_PAGE,
            enable_favicons: self.config.enable_favicons,
        }
    }

    /// What the context drawer shows: nothing while it is shut; otherwise
    /// the page it stands on, the forms filled from the account and bookmark
    /// being edited.
    pub fn context_drawer(&self) -> (res: Option<DrawerContent>)
        requires
            drawer_ready(*self),
        ensures
            !self.show_context ==> res is None,
            self.show_context ==> match self.context_page {
                ContextPage::About => res == Some(DrawerContent::About),
                ContextPage::Settings => res == Some(
                    DrawerContent::Settings(settings_spec(self.config)),
                ),
                ContextPage::AddAccountForm => res matches Some(DrawerContent::AddAccount(f))
                    && new_account_form_spec(f, self.context_account->0),
                ContextPage::EditAccountForm => res matches Some(DrawerContent::EditAccount(f))
                    && edited_account_form_spec(f, self.context_account->0),
                ContextPage::NewBookmarkForm => res matches Some(DrawerContent::NewBookmark(f))
                    && exists|b: Bookmark|
                    #![trigger new_bookmark_form_spec(f, b, self.context_accounts_list@, self.context_selected_account_index)]
                    b.same_as(self.context_bookmark->0) && new_bookmark_form_spec(
                        f,
                        b,
                        self.context_accounts_list@,
                        self.context_selected_account_index,
                    ),
                ContextPage::EditBookmarkForm => res matches Some(DrawerContent::EditBookmark(f))
                    && exists|b: Bookmark|
                    #![trigger edited_bookmark_form_spec(f, b, self.context_account->0)]
                    b.same_as(self.context_bookmark->0) && edited_bookmark_form_spec(
                        f,
                        b,
                        self.context_account->0,
                    ),
                ContextPage::ViewBookmarkNotes => res == Some(DrawerContent::Notes),
            },
    {
        if !self.show_context {
            return None;
        }
        match self.context_page {
            ContextPage::About => Some(DrawerContent::About),
            ContextPage::Settings => Some(DrawerContent::Settings(self.settings())),
            ContextPage::AddAccountForm => {
                let account = self.context_account.as_ref().unwrap().duplicate();
                Some(DrawerContent::AddAccount(add_account(account)))
            },
            ContextPage::EditAccountForm => {
                let account = self.context_account.as_ref().unwrap().duplicate();
                Some(DrawerContent::EditAccount(edit_account(account)))
            },
            ContextPage::NewBookmarkForm => {
                let bookmark = self.context_bookmark.as_ref().unwrap().duplicate();
                Some(
                    DrawerContent::NewBookmark(
                        new_bookmark(
                            bookmark,
                            &self.context_accounts_list,
                            self.context_selected_account_index,
                        ),
                    ),
                )
            },
            ContextPage::EditBookmarkForm => {
                let bookmark = self.context_bookmark.as_ref().unwrap().duplicate();
                Some(
                    DrawerContent::EditBookmark(
                        edit_bookmark(bookmark, self.context_account.as_ref().unwrap()),
                    ),
                )
            },
            ContextPage::ViewBookmarkNotes => Some(DrawerContent::Notes),
        }
    }
}

} // verus!
