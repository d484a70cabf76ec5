//! The two pages of the application, accounts and bookmarks: their state,
//! the messages they send, and what their views show.
use vstd::prelude::*;

pub mod accounts;
pub mod bookmarks;

use crate::app::actions::ApplicationAction;
use crate::app::ApplicationState;
use crate::models::operation::OperationProgress;
use crate::models::sync_status::SyncStatus;
use crate::numbers::{nat_digits, u64_digits};
use crate::text::{append_chars, chars_of, string_of};

verus! {

/// The icon beside a page's title.
#[derive(Clone, Copy, Debug, PartialEq, Eq, Structural)]
pub enum SyncIndicator {
    /// The turning refresh icon.
    Refreshing,
    /// The disconnected icon: no remote account is enabled.
    Disconnected,
    Warning,
    Failed,
    Successful,
    /// A blank mark: nothing synchronised yet.
    Idle,
}

/// The icon for an application state and the outcome of the last
/// synchronisation: the state decides while refreshing or without enabled
/// remote accounts, the outcome otherwise.
pub open spec fn sync_indicator_spec(state: ApplicationState, status: SyncStatus) -> SyncIndicator {
    match state {
        ApplicationState::Refreshing => SyncIndicator::Refreshing,
        ApplicationState::NoEnabledRemoteAccounts => SyncIndicator::Disconnected,
        _ => match status {
            SyncStatus::InProgress => SyncIndicator::Refreshing,
            SyncStatus::Warning => SyncIndicator::Warning,
            SyncStatus::Failed => SyncIndicator::Failed,
            SyncStatus::Successful => SyncIndicator::Successful,
            SyncStatus::Unsynced => SyncIndicator::Idle,
        },
    }
}

/// The icon beside a page's title.
pub fn sync_indicator(state: ApplicationState, status: SyncStatus) -> (res: SyncIndicator)
    ensures
        res == sync_indicator_spec(state, status),
{
    match state {
        ApplicationState::Refreshing => SyncIndicator::Refreshing,
        ApplicationState::NoEnabledRemoteAccounts => SyncIndicator::Disconnected,
        _ => match status {
            SyncStatus::InProgress => SyncIndicator::Refreshing,
            SyncStatus::Warning => SyncIndicator::Warning,
            SyncStatus::Failed => SyncIndicator::Failed,
            SyncStatus::Successful => SyncIndicator::Successful,
            SyncStatus::Unsynced => SyncIndicator::Idle,
        },
    }
}

/// The navigation under a list: whether the previous and next buttons can
/// be pressed, and the label between them.
#[derive(Clone, Debug)]
pub struct PageNavigation {
    pub previous_enabled: bool,
    pub next_enabled: bool,
    pub label: String,
}

/// The label between the navigation buttons: `current/total`.
pub open spec fn page_label_spec(current: nat, total: nat) -> Seq<char> {
    nat_digits(current) + seq!['/'] + nat_digits(total)
}

/// The navigation for a cursor on page `current` of `total`: back from any
/// page after the first, forward from any page before the last.
pub fn page_navigation(current: usize, total: usize) -> (res: PageNavigation)
    ensures
        res.previous_enabled == (current > 1),
        res.next_enabled == (current < total),
        res.label@ == page_label_spec(current as nat, total as nat),
{
    let mut label = u64_digits(current as u64);
    label.push('/');
    let total_digits = u64_digits(total as u64);
    append_chars(&mut label, &total_digits);
    PageNavigation {
        previous_enabled: current > 1,
        next_enabled: current < total,
        label: string_of(&label),
    }
}

/// The line above a running operation's progress bar:
/// `label: step / total`, counting the step in progress from one.
pub open spec fn progress_text_spec(p: OperationProgress) -> Seq<char> {
    p.operation_label@ + ": "@ + nat_digits((p.current + 1) as nat) + " / "@ + nat_digits(
        p.total as nat,
    )
}

/// What a running operation shows above the lists: its line of text, and
/// whether it offers to be cancelled (by `CancelImport` with its
/// identifier).
#[derive(Clone, Debug)]
pub struct ProgressView {
    pub text: String,
    pub cancel: Option<u64>,
}

/// The view of a running operation.
pub fn progress_view(p: &OperationProgress) -> (res: ProgressView)
    requires
        p.current < u64::MAX,
        p.total <= u64::MAX,
    ensures
        res.text@ == progress_text_spec(*p),
        res.cancel == (if p.cancellable {
            Some(p.operation_id)
        } else {
            None
        }),
{
    let mut text = chars_of(p.operation_label.as_str());
    append_chars(&mut text, &chars_of(": "));
    let step = u64_digits((p.current as u64) + 1);
    append_chars(&mut text, &step);
    append_chars(&mut text, &chars_of(" / "));
    let total = u64_digits(p.total as u64);
    append_chars(&mut text, &total);
    ProgressView {
        text: string_of(&text),
        cancel: if p.cancellable {
            Some(p.operation_id)
        } else {
            None
        },
    }
}

// ---------------------------------------------------------------------------
// form inputs
// ---------------------------------------------------------------------------

/// A text input of a form, named by the message it sends with the text it
/// holds after an edit.
#[derive(Clone, Copy, Debug, PartialEq, Eq, Structural)]
pub enum TextInput {
    AccountDisplayName,
    AccountInstance,
    AccountApiKey,
    BookmarkUrl,
    BookmarkTitle,
    BookmarkTags,
    BookmarkDescription,
    BookmarkNotes,
}

impl TextInput {
    /// The message the input sends with `text`.
    pub open spec fn message_spec(self, text: String) -> ApplicationAction {
        match self {
            TextInput::AccountDisplayName => ApplicationAction::SetAccountDisplayName(text),
            TextInput::AccountInstance => ApplicationAction::SetAccountInstance(text),
            TextInput::AccountApiKey => ApplicationAction::SetAccountAPIKey(text),
            TextInput::BookmarkUrl => ApplicationAction::SetBookmarkURL(text),
            TextInput::BookmarkTitle => ApplicationAction::SetBookmarkTitle(text),
            TextInput::BookmarkTags => ApplicationAction::SetBookmarkTags(text),
            TextInput::BookmarkDescription => ApplicationAction::InputBookmarkDescription(text),
            TextInput::BookmarkNotes => ApplicationAction::InputBookmarkNotes(text),
        }
    }

    /// The message the input sends with `text`.
    pub fn message(self, text: String) -> (res: ApplicationAction)
        ensures
            res == self.message_spec(text),
    {
        match self {
            TextInput::AccountDisplayName => ApplicationAction::SetAccountDisplayName(text),
            TextInput::AccountInstance => ApplicationAction::SetAccountInstance(text),
            TextInput::AccountApiKey => ApplicationAction::SetAccountAPIKey(text),
            TextInput::BookmarkUrl => ApplicationAction::SetBookmarkURL(text),
            TextInput::BookmarkTitle => ApplicationAction::SetBookmarkTitle(text),
            TextInput::BookmarkTags => ApplicationAction::SetBookmarkTags(text),
            TextInput::BookmarkDescription => ApplicationAction::InputBookmarkDescription(text),
            TextInput::BookmarkNotes => ApplicationAction::InputBookmarkNotes(text),
        }
    }
}

/// A switch of a form, named by the message it sends with its new position.
#[derive(Clone, Copy, Debug, PartialEq, Eq, Structural)]
pub enum ToggleInput {
    AccountStatus,
    AccountTrustInvalidCertificates,
    BookmarkArchived,
    BookmarkUnread,
    BookmarkShared,
}

impl ToggleInput {
    /// The message the switch sends when flipped to `on`.
    pub open spec fn message_spec(self, on: bool) -> ApplicationAction {
        match self {
            ToggleInput::AccountStatus => ApplicationAction::SetAccountStatus(on),
            ToggleInput::AccountTrustInvalidCertificates => ApplicationAction::SetAccountTrustInvalidCertificates(on),
            ToggleInput::BookmarkArchived => ApplicationAction::SetBookmarkArchived(on),
            ToggleInput::BookmarkUnread => ApplicationAction::SetBookmarkUnread(on),
            ToggleInput::BookmarkShared => ApplicationAction::SetBookmarkShared(on),
        }
    }

    /// The message the switch sends when flipped to `on`.
    pub fn message(self, on: bool) -> (res: ApplicationAction)
        ensures
            res == self.message_spec(on),
    {
        match self {
            ToggleInput::AccountStatus => ApplicationAction::SetAccountStatus(on),
            ToggleInput::AccountTrustInvalidCertificates => ApplicationAction::SetAccountTrustInvalidCertificates(on),
            ToggleInput::BookmarkArchived => ApplicationAction::SetBookmarkArchived(on),
            ToggleInput::BookmarkUnread => ApplicationAction::SetBookmarkUnread(on),
            ToggleInput::BookmarkShared => ApplicationAction::SetBookmarkShared(on),
        }
    }
}

/// A text field as a form shows it: its text, whether the text is hidden
/// (a token), and the input it is.
#[derive(Clone, Debug)]
pub struct TextField {
    pub text: String,
    pub hidden: bool,
    pub sends: TextInput,
}

/// A switch that can always be flipped: its position and the input it is.
#[derive(Clone, Copy, Debug, PartialEq, Eq, Structural)]
pub struct Toggle {
    pub on: bool,
    pub sends: ToggleInput,
}

/// `f` shows `text`, visibly unless `hidden`, as the input `sends`.
pub open spec fn field_spec(f: TextField, text: Seq<char>, hidden: bool, sends: TextInput) -> bool {
    f.text@ == text && f.hidden == hidden && f.sends == sends
}

/// A visible text field.
pub fn text_field(text: &String, sends: TextInput) -> (res: TextField)
    ensures
        field_spec(res, text@, false, sends),
{
    TextField { text: text.clone(), hidden: false, sends }
}

} // verus!
