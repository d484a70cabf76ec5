use vstd::prelude::*;

verus! {

/// A long-running operation (a refresh of several accounts, an import) and
/// how far it has come.
#[derive(Debug, Clone)]
pub struct OperationProgress {
    pub operation_id: u64,
    pub total: usize,
    pub current: usize,
    pub operation_label: String,
    pub cancellable: bool,
}

impl OperationProgress {
    /// Counts one more finished step.
    pub fn advance(&mut self)
        requires
            old(self).current < usize::MAX,
        ensures
            final(self).current == old(self).current + 1,
            final(self).total == old(self).total,
            final(self).operation_id == old(self).operation_id,
            final(self).operation_label == old(self).operation_label,
            final(self).cancellable == old(self).cancellable,
    {
        self.current = self.current + 1;
    }
}

} // verus!
