//! An M-of-N approval gate: a set of owners with a threshold, proposals that
//! collect the owners' approvals, and execution that is allowed only once
//! enough owners of the current owner set have signed.
pub mod engine;
pub mod error;
pub mod laws;
pub mod multisig;
pub mod proposal;
pub mod pubkey;

pub use engine::{
    approve, authorize_execute, delete, execute, propose, DispatchError,
};
pub use error::ErrorCode;
pub use multisig::{
    assert_unique_owners, check_owner_set, copy_keys, create_multisig, CreateMultisig, Multisig,
    OWNERS_MAX_SIZE,
};
pub use proposal::{Operation, Proposal, ProposalStore};
pub use pubkey::Pubkey;
