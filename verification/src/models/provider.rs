use vstd::prelude::*;

use crate::text::{chars_of, chars_eq, string_of};

verus! {

/// The service that holds an account's bookmarks.
#[derive(Debug, Clone, Copy, PartialEq, Eq, Structural)]
pub enum Provider {
    /// Bookmarks kept only in the local database.
    Cosmicding,
    /// A linkding instance reached over its REST API.
    Linkding,
}

pub open spec fn cosmicding_name() -> Seq<char> {
    seq!['c', 'o', 's', 'm', 'i', 'c', 'd', 'i', 'n', 'g']
}

pub open spec fn linkding_name() -> Seq<char> {
    seq!['l', 'i', 'n', 'k', 'd', 'i', 'n', 'g']
}

impl Provider {
    /// The lower-case name of the provider.
    pub open spec fn name_spec(self) -> Seq<char> {
        match self {
            Provider::Cosmicding => cosmicding_name(),
            Provider::Linkding => linkding_name(),
        }
    }

    /// The provider a name stands for; any name but `cosmicding` means linkding.
    pub open spec fn from_name_spec(s: Seq<char>) -> Provider {
        if s == cosmicding_name() {
            Provider::Cosmicding
        } else {
            Provider::Linkding
        }
    }

    /// Reads a provider from its name; unknown names give `Linkding`.
    pub fn from_str(s: &str) -> (res: Provider)
        ensures
            res == Provider::from_name_spec(s@),
    {
        let chars = chars_of(s);
        let cosmicding: Vec<char> = vec!['c', 'o', 's', 'm', 'i', 'c', 'd', 'i', 'n', 'g'];
        assert(cosmicding@ =~= cosmicding_name());
        if chars_eq(&chars, &cosmicding) {
            Provider::Cosmicding
        } else {
            Provider::Linkding
        }
    }

    /// The lower-case name of the provider, as it is displayed.
    pub fn to_string(&self) -> (res: String)
        ensures
            res@ == self.name_spec(),
    {
        match self {
            Provider::Cosmicding => {
                let v: Vec<char> = vec!['c', 'o', 's', 'm', 'i', 'c', 'd', 'i', 'n', 'g'];
                assert(v@ =~= cosmicding_name());
                string_of(&v)
            },
            Provider::Linkding => {
                let v: Vec<char> = vec!['l', 'i', 'n', 'k', 'd', 'i', 'n', 'g'];
                assert(v@ =~= linkding_name());
                string_of(&v)
            },
        }
    }

    /// Whether the provider keeps its bookmarks locally.
    pub fn is_local(&self) -> (res: bool)
        ensures
            res == (*self == Provider::Cosmicding),
    {
        match self {
            Provider::Cosmicding => true,
            Provider::Linkding => false,
        }
    }
}

/// A provider's name reads back as that provider: for every provider `p`,
/// `Provider::from_str(&p.to_string()) == p`.
pub proof fn lemma_provider_name_roundtrip(p: Provider)
    ensures
        Provider::from_name_spec(p.name_spec()) == p,
{
    if p == Provider::Linkding {
        assert(linkding_name().len() != cosmicding_name().len());
    }
}

} // verus!
