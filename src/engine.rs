use vstd::prelude::*;

use crate::error::{outcome, ErrorCode};
use crate::multisig::{change_error, copy_keys, Multisig};
use crate::proposal::{
    find, marked_executed, with_approval, Operation, OperationView, Proposal, ProposalStore,
    ProposalView,
};
use crate::pubkey::{contains_key, Pubkey};

verus! {

/// The failure that the dispatcher reports when an operation did not take
/// effect.
#[derive(Clone, Copy, Debug, PartialEq, Eq, Structural)]
pub struct DispatchError {
    pub code: u32,
}

/// A new proposal: only its proposer has approved, and it is not executed.
pub open spec fn fresh_proposal(
    id: u64,
    operation: OperationView,
    proposer: Pubkey,
    generation: u32,
) -> ProposalView {
    ProposalView {
        id,
        operation,
        proposer,
        approvals: seq![proposer],
        created_generation: generation,
        executed: false,
    }
}

/// Why `caller` cannot propose, if it cannot.
pub open spec fn propose_error(ms: Multisig, next_id: u64, caller: Pubkey) -> Option<ErrorCode> {
    if !ms.owners@.contains(caller) {
        Some(ErrorCode::InvalidOwner)
    } else if next_id == u64::MAX {
        Some(ErrorCode::Overflow)
    } else {
        None
    }
}

/// Why `caller` cannot approve proposal `id`, if it cannot.
pub open spec fn approve_error(ms: Multisig, s: Seq<ProposalView>, caller: Pubkey, id: u64) -> Option<
    ErrorCode,
> {
    if !ms.owners@.contains(caller) {
        Some(ErrorCode::InvalidOwner)
    } else if find(s, id) < 0 {
        Some(ErrorCode::ProposalNotFound)
    } else if s[find(s, id)].executed {
        Some(ErrorCode::AlreadyExecuted)
    } else if s[find(s, id)].created_generation != ms.owner_set_seqno {
        Some(ErrorCode::StaleProposal)
    } else if s[find(s, id)].approvals.contains(caller) {
        Some(ErrorCode::TransactionAlreadySigned)
    } else {
        None
    }
}

/// What approving does: on success the caller joins the proposal's
/// approvals; on failure nothing changes.
pub open spec fn approve_outcome(
    ms: Multisig,
    pre: Seq<ProposalView>,
    caller: Pubkey,
    id: u64,
    r: Result<(), ErrorCode>,
    post: Seq<ProposalView>,
) -> bool {
    &&& r == outcome(approve_error(ms, pre, caller, id))
    &&& r is Ok ==> post == pre.update(find(pre, id), with_approval(pre[find(pre, id)], caller))
    &&& r is Err ==> post == pre
}

/// Why proposal `id` may not be executed now, if it may not: it is missing,
/// already executed, stale, or short of approvals.
pub open spec fn authorize_error(ms: Multisig, s: Seq<ProposalView>, id: u64) -> Option<ErrorCode> {
    if find(s, id) < 0 {
        Some(ErrorCode::ProposalNotFound)
    } else if s[find(s, id)].executed {
        Some(ErrorCode::AlreadyExecuted)
    } else if s[find(s, id)].created_generation != ms.owner_set_seqno {
        Some(ErrorCode::StaleProposal)
    } else if s[find(s, id)].approvals.len() < ms.threshold {
        Some(ErrorCode::NotEnoughSigners)
    } else {
        None
    }
}

/// Why committing the execution of proposal `id` fails, if it does: it is
/// not authorized, the dispatcher failed, or the owner-set change it carries
/// cannot be applied.
pub open spec fn execute_error(ms: Multisig, s: Seq<ProposalView>, id: u64, dispatched: bool) -> Option<
    ErrorCode,
> {
    if authorize_error(ms, s, id) is Some {
        authorize_error(ms, s, id)
    } else if !dispatched {
        Some(ErrorCode::DispatchFailed)
    } else {
        match s[find(s, id)].operation {
            OperationView::ChangeOwners { owners, threshold } => change_error(
                ms.owner_set_seqno,
                owners,
                threshold,
            ),
            OperationView::Invoke { .. } => None,
        }
    }
}

/// The owner set after executing `op`: a change of owners installs the new
/// owners and threshold under the next generation; anything else leaves it.
pub open spec fn owners_after(ms: Multisig, op: OperationView, post: Multisig) -> bool {
    match op {
        OperationView::ChangeOwners { owners, threshold } => post.owners@ == owners
            && post.threshold == threshold && post.nonce == ms.nonce && post.owner_set_seqno
            == ms.owner_set_seqno + 1,
        OperationView::Invoke { .. } => post == ms,
    }
}

/// What committing an execution does: on success the proposal is marked
/// executed and its operation takes effect on the owner set; on failure
/// nothing changes.
pub open spec fn execute_outcome(
    ms: Multisig,
    pre: Seq<ProposalView>,
    id: u64,
    dispatched: bool,
    r: Result<(), ErrorCode>,
    ms_post: Multisig,
    post: Seq<ProposalView>,
) -> bool {
    &&& r == outcome(execute_error(ms, pre, id, dispatched))
    &&& r is Ok ==> post == pre.update(find(pre, id), marked_executed(pre[find(pre, id)]))
        && owners_after(ms, pre[find(pre, id)].operation, ms_post)
    &&& r is Err ==> post == pre && ms_post == ms
}

/// Why `caller` cannot delete proposal `id`, if it cannot: only the proposer
/// may, and only while nobody else has approved.
pub open spec fn delete_error(s: Seq<ProposalView>, caller: Pubkey, id: u64) -> Option<ErrorCode> {
    if find(s, id) < 0 {
        Some(ErrorCode::ProposalNotFound)
    } else if s[find(s, id)].proposer != caller {
        Some(ErrorCode::UnableToDelete)
    } else if exists|j: int|
        0 <= j < s[find(s, id)].approvals.len() && s[find(s, id)].approvals[j]
            != s[find(s, id)].proposer {
        Some(ErrorCode::TransactionAlreadySigned)
    } else {
        None
    }
}

/// What deleting does: on success the proposal is gone; on failure nothing
/// changes.
pub open spec fn delete_outcome(
    pre: Seq<ProposalView>,
    caller: Pubkey,
    id: u64,
    r: Result<(), ErrorCode>,
    post: Seq<ProposalView>,
) -> bool {
    &&& r == outcome(delete_error(pre, caller, id))
    &&& r is Ok ==> post == pre.remove(find(pre, id))
    &&& r is Err ==> post == pre
}

/// Creates a proposal of `operation` by `caller`, under the current
/// generation, and returns its identifier.
pub fn propose(multisig: &Multisig, store: &mut ProposalStore, caller: &Pubkey, operation: Operation) -> (r:
    Result<u64, ErrorCode>)
    requires
        old(store).wf(),
    ensures
        final(store).wf(),
        match propose_error(*multisig, old(store).next_id, *caller) {
            Some(e) => r == Err::<u64, ErrorCode>(e) && *final(store) == *old(store),
            None => r == Ok::<u64, ErrorCode>(old(store).next_id) && final(store).next_id
                == old(store).next_id + 1 && final(store)@ == old(store)@.push(
                fresh_proposal(old(store).next_id, operation@, *caller, multisig.owner_set_seqno),
            ),
        },
{
    if !multisig.is_owner(caller) {
        return Err(ErrorCode::InvalidOwner);
    }
    store.create(operation, *caller, multisig.owner_set_seqno)
}

/// Records `caller`'s approval of proposal `id`.
pub fn approve(multisig: &Multisig, store: &mut ProposalStore, caller: &Pubkey, id: u64) -> (r:
    Result<(), ErrorCode>)
    requires
        old(store).wf(),
    ensures
        final(store).wf(),
        final(store).next_id == old(store).next_id,
        approve_outcome(*multisig, old(store)@, *caller, id, r, final(store)@),
{
    if !multisig.is_owner(caller) {
        return Err(ErrorCode::InvalidOwner);
    }
    let i = match store.find_index(id) {
        Some(i) => i,
        None => {
            return Err(ErrorCode::ProposalNotFound);
        },
    };
    if store.proposals[i].executed {
        return Err(ErrorCode::AlreadyExecuted);
    }
    if store.proposals[i].created_generation != multisig.owner_set_seqno {
        return Err(ErrorCode::StaleProposal);
    }
    if contains_key(&store.proposals[i].approvals, caller) {
        return Err(ErrorCode::TransactionAlreadySigned);
    }
    store.proposals[i].approvals.push(*caller);
    assert(store@ =~= old(store)@.update(i as int, with_approval(old(store)@[i as int], *caller)));
    Ok(())
}

/// Decides whether proposal `id` may be handed to the dispatcher now.
pub fn authorize_execute(multisig: &Multisig, store: &ProposalStore, id: u64) -> (r: Result<
    (),
    ErrorCode,
>)
    requires
        store.wf(),
    ensures
        r == outcome(authorize_error(*multisig, store@, id)),
{
    let i = match store.find_index(id) {
        Some(i) => i,
        None => {
            return Err(ErrorCode::ProposalNotFound);
        },
    };
    let p = &store.proposals[i];
    if p.executed {
        return Err(ErrorCode::AlreadyExecuted);
    }
    if p.created_generation != multisig.owner_set_seqno {
        return Err(ErrorCode::StaleProposal);
    }
    if (p.approvals.len() as u64) < multisig.threshold {
        return Err(ErrorCode::NotEnoughSigners);
    }
    Ok(())
}

/// Commits the execution of proposal `id`, given what the dispatcher
/// reported. The proposal is marked executed only when the dispatcher
/// succeeded; a change of owners is applied to the owner set here.
pub fn execute(
    multisig: &mut Multisig,
    store: &mut ProposalStore,
    id: u64,
    dispatched: Result<(), DispatchError>,
) -> (r: Result<(), ErrorCode>)
    requires
        old(store).wf(),
    ensures
        final(store).wf(),
        final(store).next_id == old(store).next_id,
        old(multisig).wf() ==> final(multisig).wf(),
        execute_outcome(
            *old(multisig),
            old(store)@,
            id,
            dispatched is Ok,
            r,
            *final(multisig),
            final(store)@,
        ),
{
    let a = authorize_execute(multisig, store, id);
    if a.is_err() {
        return a;
    }
    if dispatched.is_err() {
        return Err(ErrorCode::DispatchFailed);
    }
    let i = store.find_index(id).unwrap();
    match &store.proposals[i].operation {
        Operation::ChangeOwners { owners, threshold } => {
            let c = multisig.apply_change(copy_keys(owners), *threshold);
            if c.is_err() {
                return c;
            }
        },
        Operation::Invoke { .. } => {},
    }
    store.proposals[i].executed = true;
    assert(store@ =~= old(store)@.update(i as int, marked_executed(old(store)@[i as int])));
    Ok(())
}

/// Whether nobody but the proposer has approved `p`.
fn only_proposer_approved(p: &Proposal) -> (r: bool)
    ensures
        r == forall|k: int| 0 <= k < p.approvals@.len() ==> p.approvals@[k] == p.proposer,
{
    let mut j: usize = 0;
    while j < p.approvals.len()
        invariant
            0 <= j <= p.approvals@.len(),
            forall|k: int| 0 <= k < j ==> p.approvals@[k] == p.proposer,
        decreases p.approvals@.len() - j,
    {
        if !p.approvals[j].same(&p.proposer) {
            return false;
        }
        j += 1;
    }
    true
}

/// Deletes proposal `id` on behalf of `caller`.
pub fn delete(store: &mut ProposalStore, caller: &Pubkey, id: u64) -> (r: Result<(), ErrorCode>)
    requires
        old(store).wf(),
    ensures
        final(store).wf(),
        final(store).next_id == old(store).next_id,
        delete_outcome(old(store)@, *caller, id, r, final(store)@),
{
    let i = match store.find_index(id) {
        Some(i) => i,
        None => {
            return Err(ErrorCode::ProposalNotFound);
        },
    };
    let p = &store.proposals[i];
    if !p.proposer.same(caller) {
        return Err(ErrorCode::UnableToDelete);
    }
    if !only_proposer_approved(p) {
        assert(store@[i as int].approvals == p.approvals@);
        let ghost k = choose|k: int| 0 <= k < p.approvals@.len() && p.approvals@[k] != p.proposer;
        assert(store@[i as int].approvals[k] != store@[i as int].proposer);
        return Err(ErrorCode::TransactionAlreadySigned);
    }
    let _ = store.remove(id);
    Ok(())
}

} // verus!
