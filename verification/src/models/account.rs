use vstd::prelude::*;

use crate::models::provider::Provider;

verus! {

/// A user account on a bookmark provider.
#[derive(Debug, Clone)]
pub struct Account {
    pub api_token: String,
    pub display_name: String,
    pub enable_public_sharing: bool,
    pub enable_sharing: bool,
    pub enabled: bool,
    pub id: Option<i64>,
    pub instance: String,
    pub last_sync_status: bool,
    pub last_sync_timestamp: i64,
    pub trust_invalid_certs: bool,
    pub provider: Provider,
    pub provider_version: Option<String>,
}

/// Whether two optional identifiers are equal.
pub fn same_id(a: Option<i64>, b: Option<i64>) -> (res: bool)
    ensures
        res == (a == b),
{
    match (a, b) {
        (Some(x), Some(y)) => x == y,
        (None, None) => true,
        _ => false,
    }
}

impl Account {
    /// A new enabled linkding account that has never been synchronised.
    pub fn new(name: String, token: String, url: String) -> (res: Self)
        ensures
            res.api_token == token,
            res.display_name == name,
            res.instance == url,
            !res.enable_public_sharing,
            !res.enable_sharing,
            res.enabled,
            res.id is None,
            !res.last_sync_status,
            res.last_sync_timestamp == 0,
            !res.trust_invalid_certs,
            res.provider == Provider::Linkding,
            res.provider_version is None,
    {
        Account {
            api_token: token,
            display_name: name,
            enable_public_sharing: false,
            enable_sharing: false,
            enabled: true,
            id: None,
            instance: url,
            last_sync_status: false,
            last_sync_timestamp: 0,
            trust_invalid_certs: false,
            provider: Provider::Linkding,
            provider_version: None,
        }
    }

    /// Whether moving from `other` to `self` changes anything the remote side
    /// depends on: the token, the sharing settings, the enabled flag, the
    /// identifier, the instance or the certificate trust.
    pub open spec fn requires_remote_sync_spec(&self, other: &Account) -> bool {
        ||| self.api_token@ != other.api_token@
        ||| self.enable_public_sharing != other.enable_public_sharing
        ||| self.enable_sharing != other.enable_sharing
        ||| self.enabled != other.enabled
        ||| self.id != other.id
        ||| self.instance@ != other.instance@
        ||| self.trust_invalid_certs != other.trust_invalid_certs
    }

    /// Whether the bookmarks must be fetched again after an edit from
    /// `other` to `self`.
    pub fn requires_remote_sync(&self, other: &Account) -> (res: bool)
        ensures
            res == self.requires_remote_sync_spec(other),
    {
        !(self.api_token == other.api_token) || self.enable_public_sharing
            != other.enable_public_sharing || self.enable_sharing != other.enable_sharing
            || self.enabled != other.enabled || !same_id(self.id, other.id) || !(self.instance
            == other.instance) || self.trust_invalid_certs != other.trust_invalid_certs
    }

    /// The provider that holds this account.
    pub fn provider(&self) -> (res: Provider)
        ensures
            res == self.provider,
    {
        self.provider
    }

    /// Whether the account keeps its bookmarks only locally.
    pub fn is_local_provider(&self) -> (res: bool)
        ensures
            res == (self.provider == Provider::Cosmicding),
    {
        self.provider.is_local()
    }

    /// Moves the account to another provider.
    pub fn set_provider(&mut self, provider: Provider)
        ensures
            *final(self) == (Account { provider, ..*old(self) }),
    {
        self.provider = provider;
    }

    /// A copy of the account.
    pub fn duplicate(&self) -> (res: Account)
        ensures
            res == *self,
    {
        Account {
            api_token: self.api_token.clone(),
            display_name: self.display_name.clone(),
            enable_public_sharing: self.enable_public_sharing,
            enable_sharing: self.enable_sharing,
            enabled: self.enabled,
            id: self.id,
            instance: self.instance.clone(),
            last_sync_status: self.last_sync_status,
            last_sync_timestamp: self.last_sync_timestamp,
            trust_invalid_certs: self.trust_invalid_certs,
            provider: self.provider,
            provider_version: match &self.provider_version {
                Some(v) => Some(v.clone()),
                None => None,
            },
        }
    }
}

/// An account never needs a remote synchronisation against itself, and the
/// need is symmetric: `a.requires_remote_sync(&a)` is false, and
/// `a.requires_remote_sync(&b) == b.requires_remote_sync(&a)`.
pub proof fn lemma_remote_sync_reflexive_symmetric(a: Account, b: Account)
    ensures
        !a.requires_remote_sync_spec(&a),
        a.requires_remote_sync_spec(&b) == b.requires_remote_sync_spec(&a),
{
}

/// Each setting that the remote side depends on forces a fresh fetch of the
/// bookmarks when an edit changes it, whatever else changed or stayed: a new
/// API token, a change of either sharing flag, of the enabled flag, of the
/// identifier, of the instance or of the certificate trust.
pub proof fn lemma_remote_setting_change_requires_sync(a: Account, b: Account)
    ensures
        a.api_token@ != b.api_token@ ==> a.requires_remote_sync_spec(&b),
        a.enable_public_sharing != b.enable_public_sharing ==> a.requires_remote_sync_spec(&b),
        a.enable_sharing != b.enable_sharing ==> a.requires_remote_sync_spec(&b),
        a.enabled != b.enabled ==> a.requires_remote_sync_spec(&b),
        a.id != b.id ==> a.requires_remote_sync_spec(&b),
        a.instance@ != b.instance@ ==> a.requires_remote_sync_spec(&b),
        a.trust_invalid_certs != b.trust_invalid_certs ==> a.requires_remote_sync_spec(&b),
{
}

/// An edit that changes only what the remote side never sees (the display
/// name, the record of the last synchronisation, the reported version or the
/// provider) needs no fresh fetch.
pub proof fn lemma_local_setting_change_needs_no_sync(
    a: Account,
    name: String,
    status: bool,
    timestamp: i64,
    version: Option<String>,
    provider: Provider,
)
    ensures
        !(Account {
            display_name: name,
            last_sync_status: status,
            last_sync_timestamp: timestamp,
            provider_version: version,
            provider,
            ..a
        }).requires_remote_sync_spec(&a),
{
}

/// Search preferences that the linkding profile reports.
#[derive(Debug, Clone)]
pub struct SearchPreferences {
    pub sort: Option<String>,
    pub shared: Option<String>,
    pub unread: Option<String>,
}

impl Default for SearchPreferences {
    fn default() -> (res: Self)
        ensures
            res.sort is None,
            res.shared is None,
            res.unread is None,
    {
        SearchPreferences { sort: None, shared: None, unread: None }
    }
}

/// The linkding user profile, with two fields of the library's own: `error`
/// for a failed request and `successful` for a completed one.
#[derive(Debug, Clone)]
pub struct LinkdingAccountApiResponse {
    pub bookmark_date_display: String,
    pub display_url: bool,
    pub enable_favicons: bool,
    pub enable_public_sharing: bool,
    pub enable_sharing: bool,
    pub error: Option<String>,
    pub permanent_notes: bool,
    pub search_preferences: SearchPreferences,
    pub successful: Option<bool>,
    pub tag_search: String,
    pub theme: String,
    pub web_archive_integration: String,
    pub version: Option<String>,
}

impl Default for LinkdingAccountApiResponse {
    fn default() -> (res: Self)
        ensures
            res.bookmark_date_display@ == Seq::<char>::empty(),
            !res.display_url,
            !res.enable_favicons,
            !res.enable_public_sharing,
            !res.enable_sharing,
            res.error is None,
            !res.permanent_notes,
            res.search_preferences.sort is None,
            res.search_preferences.shared is None,
            res.search_preferences.unread is None,
            res.successful is None,
            res.tag_search@ == Seq::<char>::empty(),
            res.theme@ == Seq::<char>::empty(),
            res.web_archive_integration@ == Seq::<char>::empty(),
            res.version is None,
    {
        LinkdingAccountApiResponse {
            bookmark_date_display: String::new(),
            display_url: false,
            enable_favicons: false,
            enable_public_sharing: false,
            enable_sharing: false,
            error: None,
            permanent_notes: false,
            search_preferences: SearchPreferences::default(),
            successful: None,
            tag_search: String::new(),
            theme: String::new(),
            web_archive_integration: String::new(),
            version: None,
        }
    }
}

} // verus!
