use vstd::prelude::*;

use crate::error::ErrorCode;
use crate::pubkey::Pubkey;

verus! {

/// A privileged operation that a proposal asks the owners to authorize.
pub enum Operation {
    /// Replace the owner set with these owners and this threshold.
    ChangeOwners { owners: Vec<Pubkey>, threshold: u64 },
    /// An opaque instruction for the given target, performed by the dispatcher.
    Invoke { program: Pubkey, data: Vec<u8> },
}

pub enum OperationView {
    ChangeOwners { owners: Seq<Pubkey>, threshold: u64 },
    Invoke { program: Pubkey, data: Seq<u8> },
}

impl View for Operation {
    type V = OperationView;

    open spec fn view(&self) -> OperationView {
        match self {
            Operation::ChangeOwners { owners, threshold } => OperationView::ChangeOwners {
                owners: owners@,
                threshold: *threshold,
            },
            Operation::Invoke { program, data } => OperationView::Invoke {
                program: *program,
                data: data@,
            },
        }
    }
}

/// A pending or executed operation with the owners that approved it.
pub struct Proposal {
    pub id: u64,
    pub operation: Operation,
    pub proposer: Pubkey,
    pub approvals: Vec<Pubkey>,
    pub created_generation: u32,
    pub executed: bool,
}

pub struct ProposalView {
    pub id: u64,
    pub operation: OperationView,
    pub proposer: Pubkey,
    pub approvals: Seq<Pubkey>,
    pub created_generation: u32,
    pub executed: bool,
}

impl View for Proposal {
    type V = ProposalView;

    open spec fn view(&self) -> ProposalView {
        ProposalView {
            id: self.id,
            operation: self.operation@,
            proposer: self.proposer,
            approvals: self.approvals@,
            created_generation: self.created_generation,
            executed: self.executed,
        }
    }
}

/// The proposal with `c` added to its approvals.
pub open spec fn with_approval(p: ProposalView, c: Pubkey) -> ProposalView {
    ProposalView { approvals: p.approvals.push(c), ..p }
}

/// The proposal marked executed.
pub open spec fn marked_executed(p: ProposalView) -> ProposalView {
    ProposalView { executed: true, ..p }
}

/// The position of the proposal with identifier `id`, or -1 if none has it.
pub open spec fn find(s: Seq<ProposalView>, id: u64) -> int {
    if exists|i: int| 0 <= i < s.len() && s[i].id == id {
        choose|i: int| 0 <= i < s.len() && s[i].id == id
    } else {
        -1
    }
}

/// No two proposals share an identifier.
pub open spec fn ids_unique(s: Seq<ProposalView>) -> bool {
    forall|i: int, j: int| 0 <= i < s.len() && 0 <= j < s.len() && s[i].id == s[j].id ==> i == j
}

pub proof fn lemma_find(s: Seq<ProposalView>, id: u64, i: int)
    requires
        ids_unique(s),
        0 <= i < s.len(),
        s[i].id == id,
    ensures
        find(s, id) == i,
{
}

/// The proposals, each under its own identifier, and the identifier that
/// the next proposal will get.
pub struct ProposalStore {
    pub proposals: Vec<Proposal>,
    pub next_id: u64,
}

impl View for ProposalStore {
    type V = Seq<ProposalView>;

    open spec fn view(&self) -> Seq<ProposalView> {
        self.proposals@.map_values(|p: Proposal| p@)
    }
}

impl ProposalStore {
    /// Identifiers are unique, and each lies below `next_id`.
    pub open spec fn wf(&self) -> bool {
        &&& ids_unique(self@)
        &&& forall|i: int| 0 <= i < self@.len() ==> self@[i].id < self.next_id
    }

    pub fn new() -> (r: ProposalStore)
        ensures
            r.wf(),
            r@.len() == 0,
            r.next_id == 0,
    {
        ProposalStore { proposals: Vec::new(), next_id: 0 }
    }

    pub fn len(&self) -> (r: usize)
        ensures
            r == self@.len(),
    {
        self.proposals.len()
    }

    /// The position of the proposal with identifier `id`, if there is one.
    pub fn find_index(&self, id: u64) -> (r: Option<usize>)
        requires
            self.wf(),
        ensures
            match r {
                Some(i) => i == find(self@, id),
                None => find(self@, id) == -1,
            },
    {
        let mut i: usize = 0;
        while i < self.proposals.len()
            invariant
                self.wf(),
                0 <= i <= self@.len(),
                forall|j: int| 0 <= j < i ==> self@[j].id != id,
            decreases self@.len() - i,
        {
            if self.proposals[i].id == id {
                proof {
                    lemma_find(self@, id, i as int);
                }
                return Some(i);
            }
            i += 1;
        }
        None
    }

    /// The proposal with identifier `id`.
    pub fn get(&self, id: u64) -> (r: Result<&Proposal, ErrorCode>)
        requires
            self.wf(),
        ensures
            find(self@, id) == -1 ==> r == Err::<&Proposal, ErrorCode>(ErrorCode::ProposalNotFound),
            find(self@, id) >= 0 ==> r is Ok && r->Ok_0@ == self@[find(self@, id)],
    {
        match self.find_index(id) {
            Some(i) => Ok(&self.proposals[i]),
            None => Err(ErrorCode::ProposalNotFound),
        }
    }

    /// Stores a new proposal under the next identifier. The proposer's own
    /// approval is recorded, and the proposal is not executed.
    pub fn create(&mut self, operation: Operation, proposer: Pubkey, generation: u32) -> (r: Result<
        u64,
        ErrorCode,
    >)
        requires
            old(self).wf(),
        ensures
            final(self).wf(),
            old(self).next_id == u64::MAX ==> r == Err::<u64, ErrorCode>(ErrorCode::Overflow)
                && *final(self) == *old(self),
            old(self).next_id < u64::MAX ==> r == Ok::<u64, ErrorCode>(old(self).next_id)
                && final(self).next_id == old(self).next_id + 1 && final(self)@ == old(self)@.push(
                (ProposalView {
                    id: old(self).next_id,
                    operation: operation@,
                    proposer,
                    approvals: seq![proposer],
                    created_generation: generation,
                    executed: false,
                }),
            ),
    {
        if self.next_id == u64::MAX {
            return Err(ErrorCode::Overflow);
        }
        let id = self.next_id;
        let mut approvals: Vec<Pubkey> = Vec::new();
        approvals.push(proposer);
        let p = Proposal {
            id,
            operation,
            proposer,
            approvals,
            created_generation: generation,
            executed: false,
        };
        self.proposals.push(p);
        self.next_id = id + 1;
        assert(self@ =~= old(self)@.push(p@));
        assert(approvals@ =~= seq![proposer]);
        Ok(id)
    }

    /// Removes the proposal with identifier `id` and hands it back.
    pub fn remove(&mut self, id: u64) -> (r: Result<Proposal, ErrorCode>)
        requires
            old(self).wf(),
        ensures
            final(self).wf(),
            final(self).next_id == old(self).next_id,
            find(old(self)@, id) == -1 ==> r is Err && r == Err::<Proposal, ErrorCode>(
                ErrorCode::ProposalNotFound,
            ) && *final(self) == *old(self),
            find(old(self)@, id) >= 0 ==> r is Ok && r->Ok_0@ == old(self)@[find(old(self)@, id)]
                && final(self)@ == old(self)@.remove(find(old(self)@, id)),
    {
        match self.find_index(id) {
            Some(i) => {
                let p = self.proposals.remove(i);
                assert(self@ =~= old(self)@.remove(i as int));
                Ok(p)
            },
            None => Err(ErrorCode::ProposalNotFound),
        }
    }
}

} // verus!
