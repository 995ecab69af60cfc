use vstd::prelude::*;

verus! {

/// Why an operation on an owner set or a proposal was rejected.
#[derive(Clone, Copy, Debug, PartialEq, Eq, Structural)]
pub enum ErrorCode {
    /// The caller is not one of the current owners.
    InvalidOwner,
    /// The owner list is empty or longer than `OWNERS_MAX_SIZE`.
    InvalidOwnersLen,
    /// Fewer owners than the threshold have approved.
    NotEnoughSigners,
    /// The caller already approved, or others approved before a delete.
    TransactionAlreadySigned,
    /// A bounded counter would leave its range.
    Overflow,
    /// Only the proposer may delete a proposal.
    UnableToDelete,
    /// The proposal has already been executed.
    AlreadyExecuted,
    /// The threshold is outside `0 < threshold < owners.len()`.
    InvalidThreshold,
    /// The owner list holds the same identity twice.
    UniqueOwners,
    /// The proposal was created under an owner set that has since changed.
    StaleProposal,
    /// No proposal has the given identifier.
    ProposalNotFound,
    /// The dispatcher reported that the operation did not take effect.
    DispatchFailed,
}

/// `Ok(())` when no error is given, else that error.
pub open spec fn outcome(e: Option<ErrorCode>) -> Result<(), ErrorCode> {
    match e {
        Some(e) => Err(e),
        None => Ok(()),
    }
}

} // verus!
