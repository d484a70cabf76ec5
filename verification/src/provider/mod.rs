//! The services that hold bookmarks, and what the library decides about
//! their answers.
use vstd::prelude::*;

pub mod cosmicding;
pub mod linkding;

use crate::models::account::{Account, LinkdingAccountApiResponse};
use crate::models::bookmarks::DetailedResponse;
use crate::models::provider::Provider;
use crate::time::now_unix_seconds;

verus! {

/// The provider version that an account reports: for a local account the
/// library's own, for a linkding account the version in the profile, if a
/// profile was read and names one.
pub open spec fn provider_version_spec(
    provider: Provider,
    api_response: Option<&LinkdingAccountApiResponse>,
) -> Option<Seq<char>> {
    match provider {
        Provider::Cosmicding => Some(cosmicding::local_version()),
        Provider::Linkding => match api_response {
            Some(r) => match r.version {
                Some(v) => Some(v@),
                None => None,
            },
            None => None,
        },
    }
}

/// The provider version that an account reports.
pub fn get_provider_version(
    provider: Provider,
    api_response: Option<&LinkdingAccountApiResponse>,
) -> (res: Option<String>)
    ensures
        match res {
            Some(v) => provider_version_spec(provider, api_response) == Some(v@),
            None => provider_version_spec(provider, api_response) is None,
        },
{
    match provider {
        Provider::Cosmicding => Some(cosmicding::get_provider_version()),
        Provider::Linkding => match api_response {
            Some(r) => match &r.version {
                Some(v) => Some(v.clone()),
                None => None,
            },
            None => None,
        },
    }
}

/// The response recorded when refreshing an account failed as a whole: not
/// successful, at the time `now`, without bookmarks.
pub fn failed_fetch_response(account: Account, now: i64) -> (res: DetailedResponse)
    ensures
        res.account == account,
        res.timestamp == now,
        !res.successful,
        res.bookmarks is None,
{
    DetailedResponse::new(account, now, false, None)
}

/// The response recorded now when refreshing an account failed as a whole.
pub fn failed_fetch_response_now(account: Account) -> (res: DetailedResponse)
    ensures
        res.account == account,
        res.timestamp >= 0,
        !res.successful,
        res.bookmarks is None,
{
    let now = now_unix_seconds();
    failed_fetch_response(account, now)
}

/// Whether the account's profile lives on a remote instance and has to be
/// requested.
pub fn has_remote_profile(account: &Account) -> (res: bool)
    ensures
        res == (account.provider == Provider::Linkding),
{
    !account.is_local_provider()
}

/// The account details after the profile request: none for a local account,
/// which has no remote profile; for a linkding account the outcome of the
/// request as `linkding::account_details` records it.
pub fn fetch_account_details(
    account: &Account,
    profile: Option<Result<LinkdingAccountApiResponse, String>>,
) -> (res: Option<LinkdingAccountApiResponse>)
    requires
        (account.provider == Provider::Linkding) == (profile is Some),
    ensures
        account.provider == Provider::Cosmicding ==> res is None,
        account.provider == Provider::Linkding ==> (res matches Some(d) && linkding::account_details_spec(
            profile->0,
            d,
        )),
{
    match profile {
        None => None,
        Some(result) => Some(linkding::account_details(result)),
    }
}

} // verus!
