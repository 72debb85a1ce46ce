//! Attempt timeout source metadata.

use vstd::prelude::*;

verus! {

/// Source of a per-attempt timeout selection.
#[derive(Debug, Clone, Copy, PartialEq, Eq, Structural)]
pub enum AttemptTimeoutSource {
    /// Timeout selected from the configured attempt timeout.
    Configured,
    /// Timeout selected from the remaining max-operation-elapsed budget.
    MaxOperationElapsed,
    /// Timeout selected from the remaining max-total-elapsed budget.
    MaxTotalElapsed,
}

} // verus!
