use multisig::{
    approve, assert_unique_owners, authorize_execute, check_owner_set, create_multisig, delete,
    execute, propose, CreateMultisig, DispatchError, ErrorCode, Multisig, Operation,
    ProposalStore, Pubkey, OWNERS_MAX_SIZE,
};

fn key(n: u8) -> Pubkey {
    Pubkey::new_from_array([n; 32])
}

fn owners_abc() -> Multisig {
    let mut ctx = CreateMultisig::new(254);
    create_multisig(&mut ctx, vec![key(1), key(2), key(3)], 2).unwrap();
    ctx.multisig
}

fn invoke(tag: u8) -> Operation {
    Operation::Invoke { program: key(200), data: vec![tag] }
}

#[test]
fn create_valid_owner_set_starts_at_generation_zero() {
    let mut ctx = CreateMultisig::new(7);
    assert_eq!(create_multisig(&mut ctx, vec![key(1), key(2), key(3)], 2), Ok(()));
    assert_eq!(ctx.multisig.owners, vec![key(1), key(2), key(3)]);
    assert_eq!(ctx.multisig.threshold, 2);
    assert_eq!(ctx.multisig.nonce, 7);
    assert_eq!(ctx.multisig.owner_set_seqno, 0);
}

#[test]
fn create_accepts_the_largest_owner_list() {
    let owners: Vec<Pubkey> = (0..OWNERS_MAX_SIZE as u8).map(key).collect();
    let mut ctx = CreateMultisig::new(1);
    assert_eq!(create_multisig(&mut ctx, owners, 7), Ok(()));
    assert_eq!(ctx.multisig.owners.len(), 8);
}

#[test]
fn create_rejects_empty_and_too_long_owner_lists() {
    let mut ctx = CreateMultisig::new(1);
    assert_eq!(create_multisig(&mut ctx, vec![], 1), Err(ErrorCode::InvalidOwnersLen));
    let owners: Vec<Pubkey> = (0..9u8).map(key).collect();
    assert_eq!(create_multisig(&mut ctx, owners, 2), Err(ErrorCode::InvalidOwnersLen));
    assert!(ctx.multisig.owners.is_empty());
}

#[test]
fn create_rejects_duplicates_whatever_the_threshold() {
    for threshold in [0u64, 1, 2, 3, 100] {
        let mut ctx = CreateMultisig::new(1);
        let r = create_multisig(&mut ctx, vec![key(1), key(2), key(1)], threshold);
        assert_eq!(r, Err(ErrorCode::UniqueOwners));
        assert!(ctx.multisig.owners.is_empty());
    }
}

#[test]
fn create_rejects_threshold_out_of_range() {
    let mut ctx = CreateMultisig::new(1);
    assert_eq!(create_multisig(&mut ctx, vec![key(1), key(2)], 0), Err(ErrorCode::InvalidThreshold));
    assert_eq!(create_multisig(&mut ctx, vec![key(1), key(2)], 2), Err(ErrorCode::InvalidThreshold));
    assert_eq!(create_multisig(&mut ctx, vec![key(1), key(2)], 1), Ok(()));
}

#[test]
fn create_rejects_single_owner_with_threshold_one() {
    let mut ctx = CreateMultisig::new(1);
    assert_eq!(create_multisig(&mut ctx, vec![key(1)], 1), Err(ErrorCode::InvalidThreshold));
    assert_eq!(ctx.multisig.owner_set_seqno, 0);
    assert!(ctx.multisig.owners.is_empty());
}

#[test]
fn unique_owner_scan() {
    assert_eq!(assert_unique_owners(&[]), Ok(()));
    assert_eq!(assert_unique_owners(&[key(1), key(2), key(3)]), Ok(()));
    assert_eq!(assert_unique_owners(&[key(1), key(2), key(2)]), Err(ErrorCode::UniqueOwners));
    let mut near = [3u8; 32];
    near[31] = 4;
    assert_eq!(assert_unique_owners(&[key(3), Pubkey::new_from_array(near)]), Ok(()));
    assert_eq!(check_owner_set(&[key(1), key(2)], 1), Ok(()));
}

#[test]
fn owner_queries() {
    let ms = owners_abc();
    assert!(ms.is_owner(&key(2)));
    assert!(!ms.is_owner(&key(9)));
    assert_eq!(ms.index_of(&key(3)), Some(2));
    assert_eq!(ms.index_of(&key(9)), None);
}

#[test]
fn threshold_scenario_executes_once() {
    let ms0 = owners_abc();
    let mut ms = owners_abc();
    let mut store = ProposalStore::new();
    let id = propose(&ms, &mut store, &key(1), invoke(1)).unwrap();
    assert_eq!(store.get(id).unwrap().approvals, vec![key(1)]);
    assert_eq!(authorize_execute(&ms, &store, id), Err(ErrorCode::NotEnoughSigners));
    assert_eq!(approve(&ms, &mut store, &key(2), id), Ok(()));
    assert_eq!(store.get(id).unwrap().approvals, vec![key(1), key(2)]);

    let mut dispatched = 0;
    if authorize_execute(&ms, &store, id).is_ok() {
        dispatched += 1;
        assert_eq!(execute(&mut ms, &mut store, id, Ok(())), Ok(()));
    }
    assert!(store.get(id).unwrap().executed);
    if authorize_execute(&ms, &store, id).is_ok() {
        dispatched += 1;
    }
    assert_eq!(dispatched, 1);
    assert_eq!(authorize_execute(&ms, &store, id), Err(ErrorCode::AlreadyExecuted));
    assert_eq!(execute(&mut ms, &mut store, id, Ok(())), Err(ErrorCode::AlreadyExecuted));
    assert_eq!(approve(&ms, &mut store, &key(3), id), Err(ErrorCode::AlreadyExecuted));
    assert_eq!(ms.owners, ms0.owners);
    assert_eq!(ms.owner_set_seqno, 0);
}

#[test]
fn owner_change_scenario_makes_old_proposals_stale() {
    let mut ms = owners_abc();
    let mut store = ProposalStore::new();
    let y = propose(&ms, &mut store, &key(3), invoke(9)).unwrap();
    let change = Operation::ChangeOwners { owners: vec![key(1), key(2), key(3), key(4)], threshold: 3 };
    let x = propose(&ms, &mut store, &key(1), change).unwrap();
    assert_eq!(store.get(x).unwrap().approvals, vec![key(1)]);
    assert_eq!(approve(&ms, &mut store, &key(2), x), Ok(()));
    assert_eq!(execute(&mut ms, &mut store, x, Ok(())), Ok(()));
    assert_eq!(ms.owner_set_seqno, 1);
    assert_eq!(ms.owners, vec![key(1), key(2), key(3), key(4)]);
    assert_eq!(ms.threshold, 3);
    assert_eq!(approve(&ms, &mut store, &key(2), y), Err(ErrorCode::StaleProposal));
    assert_eq!(authorize_execute(&ms, &store, y), Err(ErrorCode::StaleProposal));
    assert_eq!(execute(&mut ms, &mut store, y, Ok(())), Err(ErrorCode::StaleProposal));
    let y2 = propose(&ms, &mut store, &key(3), invoke(9)).unwrap();
    assert_eq!(approve(&ms, &mut store, &key(4), y2), Ok(()));
}

#[test]
fn second_approval_by_same_owner_fails() {
    let ms = owners_abc();
    let mut store = ProposalStore::new();
    let id = propose(&ms, &mut store, &key(1), invoke(1)).unwrap();
    assert_eq!(approve(&ms, &mut store, &key(1), id), Err(ErrorCode::TransactionAlreadySigned));
    assert_eq!(approve(&ms, &mut store, &key(2), id), Ok(()));
    assert_eq!(approve(&ms, &mut store, &key(2), id), Err(ErrorCode::TransactionAlreadySigned));
    assert_eq!(store.get(id).unwrap().approvals, vec![key(1), key(2)]);
}

#[test]
fn strangers_cannot_propose_or_approve() {
    let ms = owners_abc();
    let mut store = ProposalStore::new();
    assert_eq!(propose(&ms, &mut store, &key(9), invoke(1)), Err(ErrorCode::InvalidOwner));
    assert_eq!(store.len(), 0);
    let id = propose(&ms, &mut store, &key(1), invoke(1)).unwrap();
    assert_eq!(approve(&ms, &mut store, &key(9), id), Err(ErrorCode::InvalidOwner));
    assert_eq!(approve(&ms, &mut store, &key(2), id + 5), Err(ErrorCode::ProposalNotFound));
}

#[test]
fn proposal_ids_are_sequential() {
    let ms = owners_abc();
    let mut store = ProposalStore::new();
    assert_eq!(propose(&ms, &mut store, &key(1), invoke(1)), Ok(0));
    assert_eq!(propose(&ms, &mut store, &key(2), invoke(2)), Ok(1));
    assert_eq!(store.get(1).unwrap().proposer, key(2));
    assert_eq!(store.get(1).unwrap().created_generation, 0);
    assert!(!store.get(1).unwrap().executed);
    assert!(store.get(2).is_err());
}

#[test]
fn proposal_counter_overflow() {
    let ms = owners_abc();
    let mut store = ProposalStore::new();
    store.next_id = u64::MAX;
    assert_eq!(propose(&ms, &mut store, &key(1), invoke(1)), Err(ErrorCode::Overflow));
    assert_eq!(store.len(), 0);
}

#[test]
fn dispatcher_failure_leaves_proposal_pending() {
    let mut ms = owners_abc();
    let mut store = ProposalStore::new();
    let id = propose(&ms, &mut store, &key(1), invoke(1)).unwrap();
    approve(&ms, &mut store, &key(3), id).unwrap();
    let failed = Err(DispatchError { code: 17 });
    assert_eq!(execute(&mut ms, &mut store, id, failed), Err(ErrorCode::DispatchFailed));
    assert!(!store.get(id).unwrap().executed);
    assert_eq!(execute(&mut ms, &mut store, id, Ok(())), Ok(()));
    assert!(store.get(id).unwrap().executed);
}

#[test]
fn execute_without_enough_signers_fails() {
    let mut ms = owners_abc();
    let mut store = ProposalStore::new();
    let id = propose(&ms, &mut store, &key(1), invoke(1)).unwrap();
    assert_eq!(execute(&mut ms, &mut store, id, Ok(())), Err(ErrorCode::NotEnoughSigners));
    assert_eq!(execute(&mut ms, &mut store, 42, Ok(())), Err(ErrorCode::ProposalNotFound));
}

#[test]
fn invalid_owner_change_is_not_executed() {
    let mut ms = owners_abc();
    let mut store = ProposalStore::new();
    let change = Operation::ChangeOwners { owners: vec![key(1), key(1)], threshold: 1 };
    let id = propose(&ms, &mut store, &key(1), change).unwrap();
    approve(&ms, &mut store, &key(2), id).unwrap();
    assert_eq!(execute(&mut ms, &mut store, id, Ok(())), Err(ErrorCode::UniqueOwners));
    assert!(!store.get(id).unwrap().executed);
    assert_eq!(ms.owner_set_seqno, 0);
}

#[test]
fn owner_change_at_last_generation_overflows() {
    let mut ms = owners_abc();
    ms.owner_set_seqno = u32::MAX;
    assert_eq!(ms.apply_change(vec![key(5), key(6)], 1), Err(ErrorCode::Overflow));
    assert_eq!(ms.owners, vec![key(1), key(2), key(3)]);
    ms.owner_set_seqno = 4;
    assert_eq!(ms.apply_change(vec![key(5), key(6)], 1), Ok(()));
    assert_eq!(ms.owner_set_seqno, 5);
    assert_eq!(ms.owners, vec![key(5), key(6)]);
}

#[test]
fn delete_rules() {
    let ms = owners_abc();
    let mut store = ProposalStore::new();
    let a = propose(&ms, &mut store, &key(1), invoke(1)).unwrap();
    let b = propose(&ms, &mut store, &key(1), invoke(2)).unwrap();
    assert_eq!(delete(&mut store, &key(2), a), Err(ErrorCode::UnableToDelete));
    approve(&ms, &mut store, &key(2), b).unwrap();
    assert_eq!(delete(&mut store, &key(1), b), Err(ErrorCode::TransactionAlreadySigned));
    assert_eq!(delete(&mut store, &key(1), a), Ok(()));
    assert_eq!(delete(&mut store, &key(1), a), Err(ErrorCode::ProposalNotFound));
    assert_eq!(store.len(), 1);
    assert!(store.get(b).is_ok());
}
