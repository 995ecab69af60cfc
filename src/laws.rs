use vstd::prelude::*;

use crate::engine::{
    approve_error, approve_outcome, authorize_error, delete_outcome, execute_outcome,
};
use crate::error::ErrorCode;
use crate::multisig::{
    change_error, create_outcome, unique_keys, CreateMultisig, Multisig, OWNERS_MAX_SIZE,
};
use crate::proposal::{find, ids_unique, lemma_find, OperationView, ProposalView};
use crate::pubkey::Pubkey;

verus! {

/// Every list of one to `OWNERS_MAX_SIZE` distinct owners with a threshold in
/// range is accepted at initialization, and the owner set starts at
/// generation zero.
pub proof fn law_valid_owner_set_initializes(
    pre: CreateMultisig,
    owners: Seq<Pubkey>,
    threshold: u64,
    r: Result<(), ErrorCode>,
    post: CreateMultisig,
)
    requires
        1 <= owners.len() <= OWNERS_MAX_SIZE,
        unique_keys(owners),
        0 < threshold < owners.len(),
        create_outcome(pre, owners, threshold, r, post),
    ensures
        r is Ok,
        post.multisig.owner_set_seqno == 0,
        post.multisig.owners@ == owners,
        post.multisig.threshold == threshold,
        post.multisig.wf(),
{
}

/// An owner list of allowed length that holds some identity twice is
/// rejected with `UniqueOwners`, whatever the threshold.
pub proof fn law_duplicate_owner_rejected(
    pre: CreateMultisig,
    owners: Seq<Pubkey>,
    threshold: u64,
    r: Result<(), ErrorCode>,
    post: CreateMultisig,
    i: int,
    j: int,
)
    requires
        owners.len() <= OWNERS_MAX_SIZE,
        0 <= i < j < owners.len(),
        owners[i] == owners[j],
        create_outcome(pre, owners, threshold, r, post),
    ensures
        r == Err::<(), ErrorCode>(ErrorCode::UniqueOwners),
        post == pre,
{
}

/// A stored proposal may be handed to the dispatcher exactly when it has at
/// least `threshold` approvals, was created under the current generation,
/// and has not been executed.
pub proof fn law_authorize_iff(ms: Multisig, s: Seq<ProposalView>, id: u64)
    requires
        find(s, id) >= 0,
    ensures
        authorize_error(ms, s, id) is None <==> (s[find(s, id)].approvals.len() >= ms.threshold
            && s[find(s, id)].created_generation == ms.owner_set_seqno && !s[find(s, id)].executed),
{
}

/// When the dispatcher succeeds and any owner-set change carried is
/// acceptable, committing the execution of a stored proposal succeeds exactly
/// when it has at least `threshold` approvals, was created under the current
/// generation, and has not been executed.
pub proof fn law_execute_iff(
    ms: Multisig,
    pre: Seq<ProposalView>,
    id: u64,
    r: Result<(), ErrorCode>,
    ms_post: Multisig,
    post: Seq<ProposalView>,
)
    requires
        find(pre, id) >= 0,
        match pre[find(pre, id)].operation {
            OperationView::ChangeOwners { owners, threshold } => change_error(
                ms.owner_set_seqno,
                owners,
                threshold,
            ) is None,
            OperationView::Invoke { .. } => true,
        },
        execute_outcome(ms, pre, id, true, r, ms_post, post),
    ensures
        r is Ok <==> (pre[find(pre, id)].approvals.len() >= ms.threshold
            && pre[find(pre, id)].created_generation == ms.owner_set_seqno
            && !pre[find(pre, id)].executed),
{
}

proof fn lemma_update_keeps_ids(s: Seq<ProposalView>, k: int, p: ProposalView)
    requires
        ids_unique(s),
        0 <= k < s.len(),
        p.id == s[k].id,
    ensures
        ids_unique(s.update(k, p)),
        forall|id: u64| find(s.update(k, p), id) == find(s, id),
{
    let t = s.update(k, p);
    assert forall|i: int, j: int|
        0 <= i < t.len() && 0 <= j < t.len() && t[i].id == t[j].id implies i == j by {
        assert(t[i].id == s[i].id && t[j].id == s[j].id);
    }
    assert forall|id: u64| find(t, id) == find(s, id) by {
        if find(s, id) >= 0 {
            lemma_find(t, id, find(s, id));
        } else if find(t, id) >= 0 {
            assert(s[find(t, id)].id == id);
        }
    }
}

/// No proposal is executed twice: after a successful execution the proposal
/// is no longer authorized, and a second commit fails with `AlreadyExecuted`
/// and changes nothing, whatever the dispatcher reports.
pub proof fn law_execute_once(
    ms: Multisig,
    s: Seq<ProposalView>,
    id: u64,
    d1: bool,
    ms2: Multisig,
    s2: Seq<ProposalView>,
    d2: bool,
    r2: Result<(), ErrorCode>,
    ms3: Multisig,
    s3: Seq<ProposalView>,
)
    requires
        ids_unique(s),
        execute_outcome(ms, s, id, d1, Ok(()), ms2, s2),
        execute_outcome(ms2, s2, id, d2, r2, ms3, s3),
    ensures
        authorize_error(ms2, s2, id) == Some(ErrorCode::AlreadyExecuted),
        r2 == Err::<(), ErrorCode>(ErrorCode::AlreadyExecuted),
        ms3 == ms2,
        s3 == s2,
{
    let k = find(s, id);
    lemma_update_keeps_ids(s, k, crate::proposal::marked_executed(s[k]));
}

/// An owner cannot approve the same proposal twice: after one approval has
/// been recorded, the same caller's second one fails with
/// `TransactionAlreadySigned`.
pub proof fn law_no_double_approval(
    ms: Multisig,
    s: Seq<ProposalView>,
    caller: Pubkey,
    id: u64,
    s2: Seq<ProposalView>,
    r2: Result<(), ErrorCode>,
    s3: Seq<ProposalView>,
)
    requires
        ids_unique(s),
        approve_outcome(ms, s, caller, id, Ok(()), s2),
        approve_outcome(ms, s2, caller, id, r2, s3),
    ensures
        r2 == Err::<(), ErrorCode>(ErrorCode::TransactionAlreadySigned),
        s3 == s2,
{
    let k = find(s, id);
    let p = crate::proposal::with_approval(s[k], caller);
    lemma_update_keeps_ids(s, k, p);
    assert(s2[k].approvals.last() == caller);
}

/// Once a change of owners has been executed, every other pending proposal
/// that was created under the superseded generation is stale: approving it
/// and executing it both fail with `StaleProposal`.
pub proof fn law_owner_change_makes_stale(
    ms: Multisig,
    s: Seq<ProposalView>,
    id: u64,
    d: bool,
    ms2: Multisig,
    s2: Seq<ProposalView>,
    q: int,
    caller: Pubkey,
)
    requires
        ids_unique(s),
        execute_outcome(ms, s, id, d, Ok(()), ms2, s2),
        s[find(s, id)].operation is ChangeOwners,
        0 <= q < s.len(),
        s[q].id != id,
        !s[q].executed,
        s[q].created_generation == ms.owner_set_seqno,
        ms2.owners@.contains(caller),
    ensures
        approve_error(ms2, s2, caller, s[q].id) == Some(ErrorCode::StaleProposal),
        authorize_error(ms2, s2, s[q].id) == Some(ErrorCode::StaleProposal),
{
    let k = find(s, id);
    lemma_update_keeps_ids(s, k, crate::proposal::marked_executed(s[k]));
    lemma_find(s, s[q].id, q);
}

/// Deleting a stored proposal succeeds exactly when the caller is its
/// proposer and nobody else has approved it.
pub proof fn law_delete_iff(
    pre: Seq<ProposalView>,
    caller: Pubkey,
    id: u64,
    r: Result<(), ErrorCode>,
    post: Seq<ProposalView>,
)
    requires
        find(pre, id) >= 0,
        delete_outcome(pre, caller, id, r, post),
    ensures
        r is Ok <==> (pre[find(pre, id)].proposer == caller && forall|j: int|
            0 <= j < pre[find(pre, id)].approvals.len() ==> pre[find(pre, id)].approvals[j]
                == pre[find(pre, id)].proposer),
{
}

} // verus!
