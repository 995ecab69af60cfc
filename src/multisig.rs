use vstd::prelude::*;

use crate::error::{outcome, ErrorCode};
use crate::pubkey::Pubkey;

verus! {

/// The largest number of owners an owner set may hold.
pub const OWNERS_MAX_SIZE: usize = 8;

/// No identity occurs twice.
pub open spec fn unique_keys(s: Seq<Pubkey>) -> bool {
    forall|i: int, j: int| 0 <= i < j < s.len() ==> s[i] != s[j]
}

/// Why an owner list and threshold cannot form an owner set, if they cannot.
/// The threshold must be strictly below the number of owners.
pub open spec fn owner_set_error(owners: Seq<Pubkey>, threshold: u64) -> Option<ErrorCode> {
    if owners.len() == 0 || owners.len() > OWNERS_MAX_SIZE {
        Some(ErrorCode::InvalidOwnersLen)
    } else if !unique_keys(owners) {
        Some(ErrorCode::UniqueOwners)
    } else if !(0 < threshold && threshold < owners.len()) {
        Some(ErrorCode::InvalidThreshold)
    } else {
        None
    }
}

/// Checks that no identity occurs twice, comparing every pair of positions.
pub fn assert_unique_owners(owners: &[Pubkey]) -> (r: Result<(), ErrorCode>)
    ensures
        r == (if unique_keys(owners@) { Ok(()) } else { Err(ErrorCode::UniqueOwners) }),
{
    let n = owners.len();
    let mut i: usize = 0;
    while i < n
        invariant
            n == owners@.len(),
            0 <= i <= n,
            forall|a: int, b: int| 0 <= a < i && a < b < n ==> owners@[a] != owners@[b],
        decreases n - i,
    {
        let mut j: usize = i + 1;
        while j < n
            invariant
                n == owners@.len(),
                0 <= i < n,
                i + 1 <= j <= n,
                forall|a: int, b: int| 0 <= a < i && a < b < n ==> owners@[a] != owners@[b],
                forall|b: int| i < b < j ==> owners@[i as int] != owners@[b],
            decreases n - j,
        {
            if owners[i].same(&owners[j]) {
                return Err(ErrorCode::UniqueOwners);
            }
            j += 1;
        }
        i += 1;
    }
    Ok(())
}

/// Validates an owner list and threshold.
pub fn check_owner_set(owners: &[Pubkey], threshold: u64) -> (r: Result<(), ErrorCode>)
    ensures
        r == outcome(owner_set_error(owners@, threshold)),
{
    if owners.len() == 0 || owners.len() > OWNERS_MAX_SIZE {
        return Err(ErrorCode::InvalidOwnersLen);
    }
    let u = assert_unique_owners(owners);
    if u.is_err() {
        return u;
    }
    if !(0 < threshold && threshold < owners.len() as u64) {
        return Err(ErrorCode::InvalidThreshold);
    }
    Ok(())
}

/// An owner set: the owners, the number of approvals an operation needs, the
/// bump of the signer address, and the generation of the owner set.
pub struct Multisig {
    pub owners: Vec<Pubkey>,
    pub threshold: u64,
    pub nonce: u8,
    pub owner_set_seqno: u32,
}

impl Multisig {
    /// The owners and threshold form a valid owner set.
    pub open spec fn wf(&self) -> bool {
        owner_set_error(self.owners@, self.threshold) is None
    }

    /// An account with no owners, as it stands before initialization.
    pub fn empty() -> (r: Multisig)
        ensures
            r.owners@.len() == 0,
            r.threshold == 0,
            r.nonce == 0,
            r.owner_set_seqno == 0,
    {
        Multisig { owners: Vec::new(), threshold: 0, nonce: 0, owner_set_seqno: 0 }
    }

    /// The position of `who` among the owners, if it is one.
    pub fn index_of(&self, who: &Pubkey) -> (r: Option<usize>)
        ensures
            match r {
                Some(i) => i < self.owners@.len() && self.owners@[i as int] == *who && forall|
                    j: int,
                | 0 <= j < i ==> self.owners@[j] != *who,
                None => !self.owners@.contains(*who),
            },
    {
        let mut i: usize = 0;
        while i < self.owners.len()
            invariant
                0 <= i <= self.owners@.len(),
                forall|j: int| 0 <= j < i ==> self.owners@[j] != *who,
            decreases self.owners@.len() - i,
        {
            if self.owners[i].same(who) {
                return Some(i);
            }
            i += 1;
        }
        None
    }

    pub fn is_owner(&self, who: &Pubkey) -> (r: bool)
        ensures
            r == self.owners@.contains(*who),
    {
        match self.index_of(who) {
            Some(i) => {
                assert(self.owners@[i as int] == *who);
                true
            },
            None => false,
        }
    }

    /// Replaces the owners and threshold, moving to the next generation.
    /// The new owner set is validated as at initialization.
    pub fn apply_change(&mut self, owners: Vec<Pubkey>, threshold: u64) -> (r: Result<
        (),
        ErrorCode,
    >)
        ensures
            r == outcome(change_error(old(self).owner_set_seqno, owners@, threshold)),
            r is Ok ==> final(self).owners@ == owners@ && final(self).threshold == threshold
                && final(self).nonce == old(self).nonce && final(self).owner_set_seqno
                == old(self).owner_set_seqno + 1,
            r is Ok ==> final(self).wf(),
            r is Err ==> *final(self) == *old(self),
    {
        let c = check_owner_set(owners.as_slice(), threshold);
        if c.is_err() {
            return c;
        }
        if self.owner_set_seqno == u32::MAX {
            return Err(ErrorCode::Overflow);
        }
        self.owners = owners;
        self.threshold = threshold;
        self.owner_set_seqno = self.owner_set_seqno + 1;
        Ok(())
    }
}

/// Why changing to the given owner set fails, if it does: the new set is
/// invalid, or the generation counter is at its largest value.
pub open spec fn change_error(seqno: u32, owners: Seq<Pubkey>, threshold: u64) -> Option<
    ErrorCode,
> {
    if owner_set_error(owners, threshold) is Some {
        owner_set_error(owners, threshold)
    } else if seqno == u32::MAX {
        Some(ErrorCode::Overflow)
    } else {
        None
    }
}

/// The accounts that creating an owner set works on: the account to fill,
/// and the bump of the signer address that the runtime derived.
pub struct CreateMultisig {
    pub multisig: Multisig,
    pub multisig_signer_bump: u8,
}

impl CreateMultisig {
    pub fn new(multisig_signer_bump: u8) -> (r: CreateMultisig)
        ensures
            r.multisig.owners@.len() == 0,
            r.multisig.threshold == 0,
            r.multisig.nonce == 0,
            r.multisig.owner_set_seqno == 0,
            r.multisig_signer_bump == multisig_signer_bump,
    {
        CreateMultisig { multisig: Multisig::empty(), multisig_signer_bump }
    }
}

/// What initializing an owner set does: on a valid owner list and threshold
/// the account holds them, the signer bump, and generation zero; otherwise
/// the error comes back and nothing changes.
pub open spec fn create_outcome(
    pre: CreateMultisig,
    owners: Seq<Pubkey>,
    threshold: u64,
    r: Result<(), ErrorCode>,
    post: CreateMultisig,
) -> bool {
    &&& r == outcome(owner_set_error(owners, threshold))
    &&& r is Ok ==> post.multisig.owners@ == owners && post.multisig.threshold == threshold
        && post.multisig.nonce == pre.multisig_signer_bump && post.multisig.owner_set_seqno == 0
        && post.multisig_signer_bump == pre.multisig_signer_bump
    &&& r is Err ==> post == pre
}

/// Initializes a new owner set with the given owners and threshold.
pub fn create_multisig(ctx: &mut CreateMultisig, owners: Vec<Pubkey>, threshold: u64) -> (r:
    Result<(), ErrorCode>)
    ensures
        create_outcome(*old(ctx), owners@, threshold, r, *final(ctx)),
        r is Ok ==> final(ctx).multisig.wf(),
{
    let c = check_owner_set(owners.as_slice(), threshold);
    if c.is_err() {
        return c;
    }
    ctx.multisig.owners = owners;
    ctx.multisig.threshold = threshold;
    ctx.multisig.nonce = ctx.multisig_signer_bump;
    ctx.multisig.owner_set_seqno = 0;
    Ok(())
}

/// A copy of a list of keys.
pub fn copy_keys(keys: &Vec<Pubkey>) -> (r: Vec<Pubkey>)
    ensures
        r@ == keys@,
{
    let mut r: Vec<Pubkey> = Vec::new();
    let mut i: usize = 0;
    while i < keys.len()
        invariant
            0 <= i <= keys@.len(),
            r@ == keys@.subrange(0, i as int),
        decreases keys@.len() - i,
    {
        r.push(keys[i]);
        assert(r@ =~= keys@.subrange(0, i + 1));
        i += 1;
    }
    assert(r@ =~= keys@);
    r
}

} // verus!
