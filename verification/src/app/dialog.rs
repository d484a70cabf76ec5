//! The dialogs that ask the user to confirm or complete an operation.
use vstd::prelude::*;

use crate::app::actions::ApplicationAction;
use crate::app::model::AppModel;
use crate::models::{account::Account, bookmarks::Bookmark};

verus! {

/// A dialog: the account or bookmark to remove, the favicon cache to purge,
/// or the accounts to export from (with which ones are chosen and the file)
/// or to import into (with the chosen one and the file).
#[derive(Clone, Debug)]
pub enum DialogPage {
    RemoveAccount(Account),
    RemoveBookmark(i64, Bookmark),
    PurgeFaviconsCache(),
    ExportBookmarks(Vec<Account>, Vec<bool>, Option<String>),
    ImportBookmarks(Vec<Account>, usize, Option<String>),
}

/// The title of a dialog: `remove` followed by what is removed, or the
/// operation's own title.
#[derive(Clone, Debug)]
pub enum DialogTitle {
    Remove(String),
    PurgeFaviconsCache,
    ExportBookmarks,
    ImportBookmarks,
}

/// What a dialog shows: its title, the message of its main button (none
/// while the button cannot be pressed), and the message of its cancel
/// button.
#[derive(Clone, Debug)]
pub struct DialogView {
    pub title: DialogTitle,
    pub primary: Option<ApplicationAction>,
    pub cancel: ApplicationAction,
}

/// The accounts among the first `n` whose box is ticked, in order.
pub open spec fn chosen_prefix(accounts: Seq<Account>, chosen: Seq<bool>, n: nat) -> Seq<Account>
    decreases n,
{
    if n == 0 {
        seq![]
    } else {
        let before = chosen_prefix(accounts, chosen, (n - 1) as nat);
        if chosen[n - 1] {
            before.push(accounts[n - 1])
        } else {
            before
        }
    }
}

/// The accounts whose box is ticked, pairing accounts and boxes as far as
/// both lists go.
pub open spec fn chosen_accounts(accounts: Seq<Account>, chosen: Seq<bool>) -> Seq<Account> {
    chosen_prefix(
        accounts,
        chosen,
        if accounts.len() < chosen.len() {
            accounts.len()
        } else {
            chosen.len()
        },
    )
}

fn collect_chosen(accounts: &Vec<Account>, chosen: &Vec<bool>) -> (res: Vec<Account>)
    ensures
        res@ == chosen_accounts(accounts@, chosen@),
{
    let n = if accounts.len() < chosen.len() {
        accounts.len()
    } else {
        chosen.len()
    };
    let mut res: Vec<Account> = Vec::new();
    let mut i: usize = 0;
    while i < n
        invariant
            n <= accounts@.len(),
            n <= chosen@.len(),
            n == (if accounts@.len() < chosen@.len() {
                accounts@.len()
            } else {
                chosen@.len()
            }),
            i <= n,
            res@ == chosen_prefix(accounts@, chosen@, i as nat),
        decreases n - i,
    {
        if chosen[i] {
            res.push(accounts[i].duplicate());
        }
        i += 1;
    }
    res
}

fn any_chosen(chosen: &Vec<bool>) -> (res: bool)
    ensures
        res == chosen@.contains(true),
{
    let mut i: usize = 0;
    while i < chosen.len()
        invariant
            i <= chosen@.len(),
            forall|k: int| 0 <= k < i ==> !chosen@[k],
        decreases chosen.len() - i,
    {
        if chosen[i] {
            assert(chosen@[i as int] == true);
            return true;
        }
        i += 1;
    }
    false
}

/// `res` is what the dialog `page` shows.
pub open spec fn dialog_view_spec(page: DialogPage, res: DialogView) -> bool {
    &&& res.cancel == ApplicationAction::DialogCancel
    &&& match page {
        DialogPage::RemoveAccount(a) => {
            &&& res.title matches DialogTitle::Remove(name) && name@ == a.display_name@
            &&& res.primary == Some(ApplicationAction::CompleteRemoveDialog(a.id, None))
        },
        DialogPage::RemoveBookmark(id, b) => {
            &&& res.title matches DialogTitle::Remove(name) && name@ == b.title@
            &&& res.primary matches Some(
                ApplicationAction::CompleteRemoveDialog(Some(i), Some(c)),
            )
            &&& i == id
            &&& c.same_as(b)
        },
        DialogPage::PurgeFaviconsCache() => {
            &&& res.title matches DialogTitle::PurgeFaviconsCache
            &&& res.primary == Some(ApplicationAction::CompleteRemoveDialog(None, None))
        },
        DialogPage::ExportBookmarks(accounts, chosen, path) => {
            &&& res.title matches DialogTitle::ExportBookmarks
            &&& if chosen@.contains(true) && path is Some {
                res.primary matches Some(ApplicationAction::PerformExportBookmarks(picked))
                    && picked@ == chosen_accounts(accounts@, chosen@)
            } else {
                res.primary is None
            }
        },
        DialogPage::ImportBookmarks(accounts, index, path) => {
            &&& res.title matches DialogTitle::ImportBookmarks
            &&& if path is Some {
                res.primary == Some(
                    ApplicationAction::PerformImportBookmarks(accounts@[index as int]),
                )
            } else {
                res.primary is None
            }
        },
    }
}

/// Whether the dialog `page` can be shown: an import dialog with a file
/// chosen has its chosen account among its accounts.
pub open spec fn dialog_showable(page: DialogPage) -> bool {
    page matches DialogPage::ImportBookmarks(accounts, index, path) ==> (path is Some ==> index
        < accounts@.len())
}

/// What the dialog shows. Confirming a removal or the purge completes the
/// dialog; the export can start once an account is ticked and a file is
/// chosen, with the ticked accounts; the import can start once a file is
/// chosen, into the chosen account.
pub fn dialog_view(page: &DialogPage) -> (res: DialogView)
    requires
        dialog_showable(*page),
    ensures
        dialog_view_spec(*page, res),
{
    match page {
        DialogPage::RemoveAccount(a) => DialogView {
            title: DialogTitle::Remove(a.display_name.clone()),
            primary: Some(ApplicationAction::CompleteRemoveDialog(a.id, None)),
            cancel: ApplicationAction::DialogCancel,
        },
        DialogPage::RemoveBookmark(id, b) => DialogView {
            title: DialogTitle::Remove(b.title.clone()),
            primary: Some(ApplicationAction::CompleteRemoveDialog(Some(*id), Some(b.duplicate()))),
            cancel: ApplicationAction::DialogCancel,
        },
        DialogPage::PurgeFaviconsCache() => DialogView {
            title: DialogTitle::PurgeFaviconsCache,
            primary: Some(ApplicationAction::CompleteRemoveDialog(None, None)),
            cancel: ApplicationAction::DialogCancel,
        },
        DialogPage::ExportBookmarks(accounts, chosen, path) => {
            let ready = any_chosen(chosen) && path.is_some();
            DialogView {
                title: DialogTitle::ExportBookmarks,
                primary: if ready {
                    Some(ApplicationAction::PerformExportBookmarks(collect_chosen(accounts, chosen)))
                } else {
                    None
                },
                cancel: ApplicationAction::DialogCancel,
            }
        },
        DialogPage::ImportBookmarks(accounts, index, path) => DialogView {
            title: DialogTitle::ImportBookmarks,
            primary: if path.is_some() {
                Some(ApplicationAction::PerformImportBookmarks(accounts[*index].duplicate()))
            } else {
                None
            },
            cancel: ApplicationAction::DialogCancel,
        },
    }
}

/// The message sent when the box of the account at `index` in the export
/// dialog is ticked or cleared: the boxes with that one changed, if there
/// is a box at that position.
pub fn export_toggle(chosen: &Vec<bool>, index: usize, checked: bool) -> (res: ApplicationAction)
    ensures
        res matches ApplicationAction::ExportBookmarksSelectAccounts(c) && c@ == (if index
            < chosen@.len() {
            chosen@.update(index as int, checked)
        } else {
            chosen@
        }),
{
    let mut updated = chosen.clone();
    if index < updated.len() {
        updated.set(index, checked);
    }
    ApplicationAction::ExportBookmarksSelectAccounts(updated)
}

impl AppModel {
    /// The dialog shown: none while no dialog is queued, else the first one
    /// queued.
    pub fn dialog(&self) -> (res: Option<DialogView>)
        requires
            self.dialog_pages@.len() > 0 ==> dialog_showable(self.dialog_pages@[0]),
        ensures
            res is None <==> self.dialog_pages@.len() == 0,
            res matches Some(v) ==> dialog_view_spec(self.dialog_pages@[0], v),
    {
        if self.dialog_pages.len() == 0 {
            None
        } else {
            Some(dialog_view(&self.dialog_pages[0]))
        }
    }
}

} // verus!
