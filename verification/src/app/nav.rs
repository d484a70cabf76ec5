use vstd::prelude::*;

use crate::text::string_of;

verus! {

/// The pages of the navigation bar.
#[derive(Clone, Copy, Debug, Eq, PartialEq, Structural)]
pub enum AppNavPage {
    BookmarksView,
    AccountsView,
}

impl Default for AppNavPage {
    fn default() -> (res: Self)
        ensures
            res == AppNavPage::BookmarksView,
    {
        AppNavPage::BookmarksView
    }
}

impl AppNavPage {
    /// The identifier of the page's localized title.
    pub open spec fn title_spec(self) -> Seq<char> {
        match self {
            AppNavPage::BookmarksView => seq!['b', 'o', 'o', 'k', 'm', 'a', 'r', 'k', 's'],
            AppNavPage::AccountsView => seq!['a', 'c', 'c', 'o', 'u', 'n', 't', 's'],
        }
    }

    /// The identifier of the page's title in the localization catalogue.
    pub fn title(self) -> (res: String)
        ensures
            res@ == self.title_spec(),
    {
        let v: Vec<char> = match self {
            AppNavPage::BookmarksView => vec!['b', 'o', 'o', 'k', 'm', 'a', 'r', 'k', 's'],
            AppNavPage::AccountsView => vec!['a', 'c', 'c', 'o', 'u', 'n', 't', 's'],
        };
        assert(v@ =~= self.title_spec());
        string_of(&v)
    }

    /// The pages in the order the navigation bar lists them.
    pub fn all() -> (res: [AppNavPage; 2])
        ensures
            res@ == seq![AppNavPage::AccountsView, AppNavPage::BookmarksView],
    {
        let res = [AppNavPage::AccountsView, AppNavPage::BookmarksView];
        assert(res@ =~= seq![AppNavPage::AccountsView, AppNavPage::BookmarksView]);
        res
    }
}

} // verus!
