//! The accounts page.
use vstd::prelude::*;

use crate::app::actions::{AccountsAction, ApplicationAction};
use crate::app::ApplicationState;
use crate::models::account::Account;
use crate::models::provider::Provider;
use crate::pages::{field_spec, text_field, TextField, TextInput, Toggle, ToggleInput};
use crate::text::{append_chars, chars_of, string_of};

verus! {

/// The state of the accounts page: the accounts it lists, and the account
/// last chosen for editing.
#[derive(Debug, Clone)]
pub struct PageAccountsView {
    pub accounts: Vec<Account>,
    pub account_placeholder: Option<Account>,
}

impl Default for PageAccountsView {
    fn default() -> (res: Self)
        ensures
            res.accounts@.len() == 0,
            res.account_placeholder is None,
    {
        PageAccountsView { accounts: Vec::new(), account_placeholder: None }
    }
}

/// The message that a message of the accounts page turns into.
pub open spec fn accounts_message_spec(message: AccountsAction, res: ApplicationAction) -> bool {
    match message {
        AccountsAction::AddAccount => res == ApplicationAction::AddAccountForm,
        AccountsAction::CancelImport(id) => res == ApplicationAction::CancelImportBookmarks(id),
        AccountsAction::EditAccount(a) => res == ApplicationAction::EditAccountForm(a),
        AccountsAction::DeleteAccount(a) => res == ApplicationAction::OpenRemoveAccountDialog(a),
        AccountsAction::RefreshBookmarksForAccount(a) => res
            == ApplicationAction::StartRefreshBookmarksForAccount(a),
        AccountsAction::OpenExternalURL(url) => res == ApplicationAction::OpenExternalUrl(url),
        AccountsAction::IncrementPageIndex => res matches ApplicationAction::IncrementPageIndex(k)
            && k@ == "accounts"@,
        AccountsAction::DecrementPageIndex => res matches ApplicationAction::DecrementPageIndex(k)
            && k@ == "accounts"@,
        AccountsAction::ToggleAccountStatus(a) => res == ApplicationAction::StartEditAccount(
            Account { enabled: !a.enabled, ..a },
        ),
    }
}

impl PageAccountsView {
    /// Handles a message of the page: each one is passed on to the
    /// application as the message that does the work; editing an account
    /// also remembers it, and toggling an account's status asks for the
    /// account with the status flipped to be saved.
    pub fn update(&mut self, message: AccountsAction) -> (res: ApplicationAction)
        ensures
            accounts_message_spec(message, res),
            final(self).accounts == old(self).accounts,
            final(self).account_placeholder == (match message {
                AccountsAction::EditAccount(a) => Some(a),
                _ => old(self).account_placeholder,
            }),
    {
        match message {
            AccountsAction::AddAccount => ApplicationAction::AddAccountForm,
            AccountsAction::CancelImport(id) => ApplicationAction::CancelImportBookmarks(id),
            AccountsAction::EditAccount(account) => {
                self.account_placeholder = Some(account.duplicate());
                ApplicationAction::EditAccountForm(account)
            },
            AccountsAction::DeleteAccount(account) => ApplicationAction::OpenRemoveAccountDialog(
                account,
            ),
            AccountsAction::RefreshBookmarksForAccount(account) => {
                ApplicationAction::StartRefreshBookmarksForAccount(account)
            },
            AccountsAction::OpenExternalURL(url) => ApplicationAction::OpenExternalUrl(url),
            AccountsAction::IncrementPageIndex => ApplicationAction::IncrementPageIndex(
                string_of(&chars_of("accounts")),
            ),
            AccountsAction::DecrementPageIndex => ApplicationAction::DecrementPageIndex(
                string_of(&chars_of("accounts")),
            ),
            AccountsAction::ToggleAccountStatus(account) => {
                let mut toggled = account;
                toggled.enabled = !toggled.enabled;
                ApplicationAction::StartEditAccount(toggled)
            },
        }
    }
}

/// Whether the actions of the accounts page can be used: not while a
/// refresh runs.
pub open spec fn actions_enabled(state: ApplicationState) -> bool {
    state != ApplicationState::Refreshing
}

/// The buttons of a remote account's row, and whether each can be pressed:
/// refreshing needs an enabled account; all need the application not to be
/// refreshing. The status button offers to disable an enabled account and to
/// enable a disabled one.
#[derive(Debug, Clone, Copy, PartialEq, Eq, Structural)]
pub struct AccountActions {
    pub refresh: bool,
    pub toggle_status: bool,
    pub offers_disable: bool,
    pub edit: bool,
    pub remove: bool,
}

/// What the row of one account shows: whether it is enabled, whether it is
/// local, the sharing badges (remote accounts only), the provider with its
/// version, and for remote accounts the buttons and the time and outcome of
/// the last synchronisation.
#[derive(Debug, Clone)]
pub struct AccountRow {
    pub enabled: bool,
    pub local: bool,
    pub sharing_badge: bool,
    pub public_sharing_badge: bool,
    pub provider_label: String,
    pub actions: Option<AccountActions>,
    pub last_sync: Option<(i64, bool)>,
}

/// The label of an account's provider: its name, and the version after a
/// colon when one is known.
pub open spec fn provider_label_spec(account: Account) -> Seq<char> {
    match account.provider_version {
        Some(v) => account.provider.name_spec() + ": "@ + v@,
        None => account.provider.name_spec(),
    }
}

/// The row of one account in the state `state`.
pub fn account_row(account: &Account, state: ApplicationState) -> (res: AccountRow)
    ensures
        res.enabled == account.enabled,
        res.local == (account.provider == Provider::Cosmicding),
        res.sharing_badge == (!res.local && account.enable_sharing),
        res.public_sharing_badge == (!res.local && account.enable_public_sharing),
        res.provider_label@ == provider_label_spec(*account),
        res.local ==> res.actions is None && res.last_sync is None,
        !res.local ==> res.actions == Some(
            AccountActions {
                refresh: actions_enabled(state) && account.enabled,
                toggle_status: actions_enabled(state),
                offers_disable: account.enabled,
                edit: actions_enabled(state),
                remove: actions_enabled(state),
            },
        ) && res.last_sync == Some((account.last_sync_timestamp, account.last_sync_status)),
{
    let local = account.is_local_provider();
    let mut label = chars_of(account.provider.to_string().as_str());
    match &account.provider_version {
        Some(v) => {
            append_chars(&mut label, &chars_of(": "));
            append_chars(&mut label, &chars_of(v.as_str()));
        },
        None => {},
    }
    let open = state != ApplicationState::Refreshing;
    AccountRow {
        enabled: account.enabled,
        local,
        sharing_badge: !local && account.enable_sharing,
        public_sharing_badge: !local && account.enable_public_sharing,
        provider_label: string_of(&label),
        actions: if local {
            None
        } else {
            Some(
                AccountActions {
                    refresh: open && account.enabled,
                    toggle_status: open,
                    offers_disable: account.enabled,
                    edit: open,
                    remove: open,
                },
            )
        },
        last_sync: if local {
            None
        } else {
            Some((account.last_sync_timestamp, account.last_sync_status))
        },
    }
}

/// Whether the page's button for adding an account can be pressed: when the
/// application is ready, with or without enabled remote accounts.
pub fn add_account_enabled(state: ApplicationState) -> (res: bool)
    ensures
        res == (state == ApplicationState::Ready || state
            == ApplicationState::NoEnabledRemoteAccounts),
{
    state == ApplicationState::Ready || state == ApplicationState::NoEnabledRemoteAccounts
}

// ---------------------------------------------------------------------------
// the account forms
// ---------------------------------------------------------------------------

/// How the account form shows the provider: a choice among the providers an
/// account can be added for (linkding alone), with the account's one chosen
/// if it is among them; or, when editing, the provider's name, fixed.
#[derive(Debug, Clone)]
pub enum ProviderField {
    Choice(Option<usize>),
    Fixed(String),
}

/// What the account form shows: the provider, the name, the instance, the
/// token (hidden), whether invalid certificates are trusted, the enabled
/// switch (new accounts only), the sharing settings that the instance
/// manages (edited accounts only, as sharing and public sharing, shown and
/// not editable), and the message that saving sends. Each text field and
/// switch records the message it sends when edited.
#[derive(Debug, Clone)]
pub struct AccountForm {
    pub provider: ProviderField,
    pub display_name: TextField,
    pub instance: TextField,
    pub api_token: TextField,
    pub trust_invalid_certs: Toggle,
    pub enabled: Option<Toggle>,
    pub sharing: Option<(bool, bool)>,
    pub save: ApplicationAction,
}

/// `form` shows the texts and the certificate setting of `account`: the
/// name, instance and token inputs send `SetAccountDisplayName`,
/// `SetAccountInstance` and `SetAccountAPIKey`, the certificate switch
/// `SetAccountTrustInvalidCertificates`.
pub open spec fn account_form_spec(form: AccountForm, account: Account) -> bool {
    &&& field_spec(form.display_name, account.display_name@, false, TextInput::AccountDisplayName)
    &&& field_spec(form.instance, account.instance@, false, TextInput::AccountInstance)
    &&& field_spec(form.api_token, account.api_token@, true, TextInput::AccountApiKey)
    &&& form.trust_invalid_certs == Toggle {
        on: account.trust_invalid_certs,
        sends: ToggleInput::AccountTrustInvalidCertificates,
    }
}

/// `form` is the form for the new account `account`: the enabled switch
/// sends `SetAccountStatus`, and saving adds the account.
pub open spec fn new_account_form_spec(form: AccountForm, account: Account) -> bool {
    &&& account_form_spec(form, account)
    &&& form.provider matches ProviderField::Choice(c) && c == (if account.provider
        == Provider::Linkding {
        Some(0usize)
    } else {
        None
    })
    &&& form.enabled == Some(Toggle { on: account.enabled, sends: ToggleInput::AccountStatus })
    &&& form.sharing is None
    &&& form.save == ApplicationAction::StartAddAccount(account)
}

/// `form` is the form for editing `account`: the provider is fixed, the
/// sharing settings are only shown, and saving sends the edited account.
pub open spec fn edited_account_form_spec(form: AccountForm, account: Account) -> bool {
    &&& account_form_spec(form, account)
    &&& form.provider matches ProviderField::Fixed(name) && name@ == account.provider.name_spec()
    &&& form.enabled is None
    &&& form.sharing == Some((account.enable_sharing, account.enable_public_sharing))
    &&& form.save == ApplicationAction::StartEditAccount(account)
}

fn account_fields(account: &Account) -> (res: (TextField, TextField, TextField, Toggle))
    ensures
        field_spec(res.0, account.display_name@, false, TextInput::AccountDisplayName),
        field_spec(res.1, account.instance@, false, TextInput::AccountInstance),
        field_spec(res.2, account.api_token@, true, TextInput::AccountApiKey),
        res.3 == (Toggle {
            on: account.trust_invalid_certs,
            sends: ToggleInput::AccountTrustInvalidCertificates,
        }),
{
    (
        text_field(&account.display_name, TextInput::AccountDisplayName),
        text_field(&account.instance, TextInput::AccountInstance),
        TextField { text: account.api_token.clone(), hidden: true, sends: TextInput::AccountApiKey },
        Toggle {
            on: account.trust_invalid_certs,
            sends: ToggleInput::AccountTrustInvalidCertificates,
        },
    )
}

/// The form for a new account: the provider is chosen among those that can
/// be added, and saving adds the account.
pub fn add_account(account: Account) -> (res: AccountForm)
    ensures
        new_account_form_spec(res, account),
{
    let provider = match account.provider {
        Provider::Linkding => ProviderField::Choice(Some(0)),
        Provider::Cosmicding => ProviderField::Choice(None),
    };
    let (display_name, instance, api_token, trust_invalid_certs) = account_fields(&account);
    AccountForm {
        provider,
        display_name,
        instance,
        api_token,
        trust_invalid_certs,
        enabled: Some(Toggle { on: account.enabled, sends: ToggleInput::AccountStatus }),
        sharing: None,
        save: ApplicationAction::StartAddAccount(account),
    }
}

/// The message sent when a provider is chosen in the form for a new
/// account: linkding is the only provider offered, whatever the position.
pub fn choose_provider(index: usize) -> (res: ApplicationAction)
    ensures
        res == ApplicationAction::SetAccountProvider(Provider::Linkding),
{
    ApplicationAction::SetAccountProvider(Provider::Linkding)
}

/// The form for editing an account: the provider is shown by its name,
/// the sharing settings as the instance reports them, and saving sends the
/// edited account.
pub fn edit_account(account: Account) -> (res: AccountForm)
    ensures
        edited_account_form_spec(res, account),
{
    let (display_name, instance, api_token, trust_invalid_certs) = account_fields(&account);
    AccountForm {
        provider: ProviderField::Fixed(account.provider.to_string()),
        display_name,
        instance,
        api_token,
        trust_invalid_certs,
        enabled: None,
        sharing: Some((account.enable_sharing, account.enable_public_sharing)),
        save: ApplicationAction::StartEditAccount(account),
    }
}

} // verus!
