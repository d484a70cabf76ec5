use vstd::prelude::*;

use crate::text::string_of;

verus! {

/// The page shown in the context drawer.
#[derive(Clone, Copy, Debug, Eq, PartialEq, Structural)]
pub enum ContextPage {
    About,
    AddAccountForm,
    EditAccountForm,
    EditBookmarkForm,
    NewBookmarkForm,
    Settings,
    ViewBookmarkNotes,
}

impl ContextPage {
    /// The identifier of the localized title of the page.
    pub open spec fn title_spec(self) -> Seq<char> {
        match self {
            ContextPage::About => seq!['a', 'b', 'o', 'u', 't'],
            ContextPage::Settings => seq!['s', 'e', 't', 't', 'i', 'n', 'g', 's'],
            ContextPage::AddAccountForm => seq!['a', 'd', 'd', '-', 'a', 'c', 'c', 'o', 'u', 'n', 't'],
            ContextPage::EditAccountForm => seq![
                'e', 'd', 'i', 't', '-', 'a', 'c', 'c', 'o', 'u', 'n', 't'
            ],
            ContextPage::NewBookmarkForm => seq![
                'a', 'd', 'd', '-', 'b', 'o', 'o', 'k', 'm', 'a', 'r', 'k'
            ],
            ContextPage::EditBookmarkForm => seq![
                'e', 'd', 'i', 't', '-', 'b', 'o', 'o', 'k', 'm', 'a', 'r', 'k'
            ],
            ContextPage::ViewBookmarkNotes => seq!['n', 'o', 't', 'e', 's'],
        }
    }

    /// The identifier of the page's title in the localization catalogue.
    pub fn title(&self) -> (res: String)
        ensures
            res@ == self.title_spec(),
    {
        let v: Vec<char> = match self {
            ContextPage::About => vec!['a', 'b', 'o', 'u', 't'],
            ContextPage::Settings => vec!['s', 'e', 't', 't', 'i', 'n', 'g', 's'],
            ContextPage::AddAccountForm => vec!['a', 'd', 'd', '-', 'a', 'c', 'c', 'o', 'u', 'n', 't'],
            ContextPage::EditAccountForm => vec![
                'e', 'd', 'i', 't', '-', 'a', 'c', 'c', 'o', 'u', 'n', 't'
            ],
            ContextPage::NewBookmarkForm => vec![
                'a', 'd', 'd', '-', 'b', 'o', 'o', 'k', 'm', 'a', 'r', 'k'
            ],
            ContextPage::EditBookmarkForm => vec![
                'e', 'd', 'i', 't', '-', 'b', 'o', 'o', 'k', 'm', 'a', 'r', 'k'
            ],
            ContextPage::ViewBookmarkNotes => vec!['n', 'o', 't', 'e', 's'],
        };
        assert(v@ =~= self.title_spec());
        string_of(&v)
    }

    /// What toggling `requested` does to the drawer that shows `self`, open
    /// or not: the same page flips the drawer, another page opens it.
    pub fn toggle(&self, shown: bool, requested: ContextPage) -> (res: (ContextPage, bool))
        ensures
            res == (if *self == requested {
                (*self, !shown)
            } else {
                (requested, true)
            }),
    {
        if *self == requested {
            (*self, !shown)
        } else {
            (requested, true)
        }
    }
}

} // verus!
