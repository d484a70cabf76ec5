use vstd::prelude::*;

verus! {

/// The version under which the settings are stored.
pub const CONFIG_VERSION: u64 = 1;

/// The user's settings.
#[derive(Debug, Clone, Copy, PartialEq, Eq, Structural)]
pub struct CosmicConfig {
    pub app_theme: AppTheme,
    pub sort_option: SortOption,
    pub items_per_page: u8,
    pub enable_favicons: bool,
}

impl Default for CosmicConfig {
    fn default() -> (res: Self)
        ensures
            res.app_theme == AppTheme::System,
            res.sort_option == SortOption::BookmarksDateNewest,
            res.items_per_page == 10,
            res.enable_favicons,
    {
        CosmicConfig {
            app_theme: AppTheme::System,
            sort_option: SortOption::BookmarksDateNewest,
            items_per_page: 10,
            enable_favicons: true,
        }
    }
}

impl CosmicConfig {
    /// The settings to start with: those read from the settings store (with
    /// its defaults filled in for entries it could not read), or the
    /// defaults when there is no store.
    pub fn config(loaded: Option<CosmicConfig>) -> (res: CosmicConfig)
        ensures
            res == (match loaded {
                Some(c) => c,
                None => CosmicConfig {
                    app_theme: AppTheme::System,
                    sort_option: SortOption::BookmarksDateNewest,
                    items_per_page: 10,
                    enable_favicons: true,
                },
            }),
    {
        match loaded {
            Some(c) => c,
            None => CosmicConfig::default(),
        }
    }
}

/// The colour scheme of the application.
#[derive(Clone, Copy, Debug, Eq, Hash, PartialEq, Structural)]
pub enum AppTheme {
    Dark,
    Light,
    System,
}

impl AppTheme {
    /// The position of the theme in the settings list "match desktop, dark, light".
    pub open spec fn settings_index_spec(self) -> usize {
        match self {
            AppTheme::System => 0,
            AppTheme::Dark => 1,
            AppTheme::Light => 2,
        }
    }

    /// The position of the theme in the settings list.
    pub fn settings_index(&self) -> (res: usize)
        ensures
            res == self.settings_index_spec(),
    {
        match self {
            AppTheme::Dark => 1,
            AppTheme::Light => 2,
            AppTheme::System => 0,
        }
    }

    /// The theme chosen at a position of the settings list; any position but
    /// the dark and light ones means following the desktop.
    pub fn from_settings_index(index: usize) -> (res: AppTheme)
        ensures
            res == (if index == 1 {
                AppTheme::Dark
            } else if index == 2 {
                AppTheme::Light
            } else {
                AppTheme::System
            }),
    {
        if index == 1 {
            AppTheme::Dark
        } else if index == 2 {
            AppTheme::Light
        } else {
            AppTheme::System
        }
    }
}

/// Choosing the entry the settings list shows for a theme gives that theme
/// back: `AppTheme::from_settings_index(t.settings_index()) == t`.
pub proof fn lemma_theme_index_roundtrip(t: AppTheme)
    ensures
        (if t.settings_index_spec() == 1 {
            AppTheme::Dark
        } else if t.settings_index_spec() == 2 {
            AppTheme::Light
        } else {
            AppTheme::System
        }) == t,
{
}

/// The order in which bookmarks are listed.
#[derive(Clone, Copy, Debug, Eq, Hash, PartialEq, Structural)]
pub enum SortOption {
    BookmarksDateNewest,
    BookmarksDateOldest,
    BookmarkAlphabeticalAscending,
    BookmarkAlphabeticalDescending,
}

impl Default for SortOption {
    fn default() -> (res: Self)
        ensures
            res == SortOption::BookmarksDateNewest,
    {
        SortOption::BookmarksDateNewest
    }
}

} // verus!
