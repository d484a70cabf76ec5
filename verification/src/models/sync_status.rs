use vstd::prelude::*;

verus! {

/// The outcome of the last synchronisation with the remote instances.
#[derive(Clone, Copy, Debug, PartialEq, Eq, Hash, Structural)]
pub enum SyncStatus {
    Unsynced,
    InProgress,
    Successful,
    Warning,
    Failed,
}

impl Default for SyncStatus {
    fn default() -> (res: Self)
        ensures
            res == SyncStatus::Unsynced,
    {
        SyncStatus::Unsynced
    }
}

} // verus!
