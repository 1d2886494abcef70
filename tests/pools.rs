use crowdfunding::contract::CrowdfundingContract;
use crowdfunding::errors::CrowdfundingError;
use crowdfunding::types::{PoolConfig, PoolState, Transfer};

const CONTRACT: u64 = 1_000;
const ADMIN: u64 = 1;
const TOKEN: u64 = 900;

fn setup_test() -> CrowdfundingContract {
    let mut c = CrowdfundingContract::new(CONTRACT);
    c.initialize(ADMIN, TOKEN, 0).unwrap();
    c
}

fn config(name: &str, target: i128, min: i128, private: bool, duration: u64, at: u64) -> PoolConfig {
    PoolConfig {
        name: name.as_bytes().to_vec(),
        description: b"A pool for testing".to_vec(),
        target_amount: target,
        min_contribution: min,
        is_private: private,
        duration,
        created_at: at,
    }
}

fn create_private_pool(c: &mut CrowdfundingContract, creator: u64) -> u64 {
    c.create_pool(creator, config("Private Pool", 1_000_000, 100, true, 86400, 0)).unwrap()
}

fn create_public_pool(c: &mut CrowdfundingContract, creator: u64) -> u64 {
    c.create_pool(creator, config("Public Pool", 1_000_000, 100, false, 86400, 0)).unwrap()
}

/// A pool created at 1_000 that expires at 1_001.
fn make_pool(c: &mut CrowdfundingContract) -> u64 {
    c.create_pool(ADMIN, config("Reentrancy Test Pool", 1_000_000, 0, false, 1, 1_000)).unwrap()
}

const PAST_GRACE: u64 = 1_001 + 604_800 + 1;

/// A whole refund call: the first step, the transfer, then the release.
fn full_refund(c: &mut CrowdfundingContract, pool_id: u64, who: u64, now: u64) -> Result<Transfer, CrowdfundingError> {
    let r = c.refund(pool_id, who, now);
    if r.is_ok() {
        c.finish_refund(pool_id);
    }
    r
}

#[test]
fn test_owner_can_close_private_pool() {
    let mut c = setup_test();
    let owner = 10;
    let pool_id = create_private_pool(&mut c, owner);
    c.close_pool(pool_id, owner).unwrap();
    assert_eq!(c.is_closed(pool_id), Ok(true));
}

#[test]
fn test_contribute_fails_on_closed_private_pool() {
    let mut c = setup_test();
    let (owner, contributor) = (10, 11);
    let pool_id = create_private_pool(&mut c, owner);
    c.close_pool(pool_id, owner).unwrap();
    let result = c.contribute(pool_id, contributor, TOKEN, 1000, 0);
    assert_eq!(result, Err(CrowdfundingError::PoolAlreadyClosed));
}

#[test]
fn test_owner_cannot_close_public_pool_when_active() {
    let mut c = setup_test();
    let owner = 10;
    let pool_id = create_public_pool(&mut c, owner);
    let result = c.close_pool(pool_id, owner);
    assert_eq!(result, Err(CrowdfundingError::PoolNotDisbursedOrRefunded));
}

#[test]
fn test_non_owner_cannot_close_private_pool() {
    let mut c = setup_test();
    let (owner, non_owner) = (10, 12);
    let pool_id = create_private_pool(&mut c, owner);
    let result = c.close_pool(pool_id, non_owner);
    assert_eq!(result, Err(CrowdfundingError::Unauthorized));
}

#[test]
fn test_admin_can_close_private_pool() {
    let mut c = setup_test();
    let owner = 10;
    let pool_id = create_private_pool(&mut c, owner);
    let result = c.close_pool(pool_id, ADMIN);
    assert_eq!(result, Err(CrowdfundingError::PoolNotDisbursedOrRefunded));
}

#[test]
fn test_owner_can_close_paused_private_pool() {
    let mut c = setup_test();
    let owner = 10;
    let pool_id = create_private_pool(&mut c, owner);
    c.update_pool_state(pool_id, PoolState::Paused).unwrap();
    c.close_pool(pool_id, owner).unwrap();
    assert_eq!(c.is_closed(pool_id), Ok(true));
}

#[test]
fn test_owner_cannot_close_completed_private_pool() {
    let mut c = setup_test();
    let owner = 10;
    let pool_id = create_private_pool(&mut c, owner);
    c.update_pool_state(pool_id, PoolState::Completed).unwrap();
    let result = c.close_pool(pool_id, owner);
    assert_eq!(result, Err(CrowdfundingError::InvalidPoolState));
}

#[test]
fn test_close_private_pool_before_deadline() {
    let mut c = setup_test();
    let (owner, contributor) = (10, 11);
    let pool_id = create_private_pool(&mut c, owner);
    c.contribute(pool_id, contributor, TOKEN, 1000, 0).unwrap();
    c.close_pool(pool_id, owner).unwrap();
    assert_eq!(c.is_closed(pool_id), Ok(true));
    let result = c.contribute(pool_id, contributor, TOKEN, 1000, 0);
    assert_eq!(result, Err(CrowdfundingError::PoolAlreadyClosed));
}

#[test]
fn test_close_already_closed_private_pool() {
    let mut c = setup_test();
    let owner = 10;
    let pool_id = create_private_pool(&mut c, owner);
    c.close_pool(pool_id, owner).unwrap();
    let result = c.close_pool(pool_id, owner);
    assert_eq!(result, Err(CrowdfundingError::PoolAlreadyClosed));
}

#[test]
fn test_multiple_private_pools_independent_closure() {
    let mut c = setup_test();
    let (owner1, owner2, contributor) = (10, 20, 11);
    let pool_id_1 = create_private_pool(&mut c, owner1);
    let pool_id_2 = create_private_pool(&mut c, owner2);
    c.close_pool(pool_id_1, owner1).unwrap();
    assert_eq!(c.is_closed(pool_id_1), Ok(true));
    assert_eq!(c.is_closed(pool_id_2), Ok(false));
    let result = c.contribute(pool_id_1, contributor, TOKEN, 1000, 0);
    assert_eq!(result, Err(CrowdfundingError::PoolAlreadyClosed));
    c.contribute(pool_id_2, contributor, TOKEN, 1000, 0).unwrap();
}

#[test]
fn test_admin_can_close_after_disbursement() {
    let mut c = setup_test();
    let owner = 10;
    let pool_id = create_private_pool(&mut c, owner);
    c.update_pool_state(pool_id, PoolState::Disbursed).unwrap();
    c.close_pool(pool_id, ADMIN).unwrap();
    assert_eq!(c.is_closed(pool_id), Ok(true));
}

#[test]
fn test_owner_can_close_after_cancellation() {
    let mut c = setup_test();
    let owner = 10;
    let pool_id = create_private_pool(&mut c, owner);
    c.update_pool_state(pool_id, PoolState::Cancelled).unwrap();
    c.close_pool(pool_id, owner).unwrap();
    assert_eq!(c.is_closed(pool_id), Ok(true));
}

#[test]
fn closed_pool_cannot_be_reopened() {
    let mut c = setup_test();
    let owner = 10;
    let pool_id = create_private_pool(&mut c, owner);
    c.close_pool(pool_id, owner).unwrap();
    assert_eq!(c.update_pool_state(pool_id, PoolState::Active), Err(CrowdfundingError::InvalidPoolState));
    c.update_pool_state(pool_id, PoolState::Closed).unwrap_err();
}

#[test]
fn test_contribute_below_minimum_fails() {
    let mut c = setup_test();
    let creator = 10;
    let pool_id = c.create_pool(creator, config("Min Pool", 1000, 5, false, 86400, 0)).unwrap();
    let contributor = 11;
    let result = c.contribute(pool_id, contributor, TOKEN, 1i128, 0);
    assert_eq!(result, Err(CrowdfundingError::InvalidAmount));
}

#[test]
fn test_pool_remaining_time_future() {
    let mut c = setup_test();
    let now = 1_000_000;
    let pool_id = c.create_pool(10, config("Test Pool", 1_000_000, 0, false, 500, now)).unwrap();
    assert_eq!(c.get_pool_remaining_time(pool_id, now), Ok(500));
}

#[test]
fn test_pool_remaining_time_expired_returns_zero() {
    let mut c = setup_test();
    let now = 1_000_000;
    let pool_id = c.create_pool(10, config("Expired Pool", 1_000_000, 0, false, 100, now)).unwrap();
    assert_eq!(c.get_pool_remaining_time(pool_id, 1_000_200), Ok(0));
}

#[test]
fn test_pool_remaining_time_not_found() {
    let c = setup_test();
    let result = c.get_pool_remaining_time(999u64, 0);
    assert_eq!(result, Err(CrowdfundingError::PoolNotFound));
}

#[test]
fn test_get_pool_contributions_paginated_with_10_contributors() {
    let mut c = setup_test();
    let pool_id = c
        .create_pool(10, config("Test Pool", 10_000_000, 1000, false, 30 * 24 * 60 * 60, 0))
        .unwrap();
    let mut contributors = Vec::new();
    for i in 0..10u64 {
        let contributor = 100 + i;
        let amount = (i + 1) as i128 * 100_000;
        c.contribute(pool_id, contributor, TOKEN, amount, 0).unwrap();
        contributors.push(contributor);
    }
    let first_batch = c.get_pool_contributions_paginated(pool_id, 0, 5).unwrap();
    assert_eq!(first_batch.len(), 5);
    for i in 0..5 {
        let contribution = first_batch[i];
        assert_eq!(contribution.contributor, contributors[i]);
        assert_eq!(contribution.pool_id, pool_id);
        assert_eq!(contribution.amount, (i + 1) as i128 * 100_000);
    }
    let second_batch = c.get_pool_contributions_paginated(pool_id, 5, 5).unwrap();
    assert_eq!(second_batch.len(), 5);
    for i in 0..5 {
        let contribution = second_batch[i];
        assert_eq!(contribution.contributor, contributors[i + 5]);
        assert_eq!(contribution.pool_id, pool_id);
        assert_eq!(contribution.amount, (i + 6) as i128 * 100_000);
    }
    let empty_batch = c.get_pool_contributions_paginated(pool_id, 10, 5).unwrap();
    assert_eq!(empty_batch.len(), 0);
    let partial_batch = c.get_pool_contributions_paginated(pool_id, 8, 5).unwrap();
    assert_eq!(partial_batch.len(), 2);
}

#[test]
fn test_get_pool_contributions_paginated_empty_pool() {
    let mut c = setup_test();
    let pool_id = c
        .create_pool(10, config("Empty Pool", 5_000_000, 1000, false, 30 * 24 * 60 * 60, 0))
        .unwrap();
    let result = c.get_pool_contributions_paginated(pool_id, 0, 5).unwrap();
    assert_eq!(result.len(), 0);
}

#[test]
fn test_get_pool_contributions_paginated_nonexistent_pool() {
    let c = setup_test();
    let result = c.get_pool_contributions_paginated(999, 0, 5);
    assert_eq!(result, Err(CrowdfundingError::PoolNotFound));
}

#[test]
fn test_get_pool_contributions_paginated_single_contributor_multiple_contributions() {
    let mut c = setup_test();
    let pool_id = c
        .create_pool(10, config("Test Pool", 10_000_000, 1000, false, 30 * 24 * 60 * 60, 0))
        .unwrap();
    let contributor = 11;
    c.contribute(pool_id, contributor, TOKEN, 300_000, 0).unwrap();
    c.contribute(pool_id, contributor, TOKEN, 400_000, 0).unwrap();
    c.contribute(pool_id, contributor, TOKEN, 300_000, 0).unwrap();
    let result = c.get_pool_contributions_paginated(pool_id, 0, 10).unwrap();
    assert_eq!(result.len(), 1);
    assert_eq!(result[0].contributor, contributor);
    assert_eq!(result[0].amount, 1_000_000);
}

#[test]
fn pagination_with_the_largest_offset_and_limit() {
    let mut c = setup_test();
    let pool_id = c.create_pool(10, config("Test Pool", 10_000, 0, false, 100, 0)).unwrap();
    for who in 0..3u64 {
        c.contribute(pool_id, 50 + who, TOKEN, 10, 0).unwrap();
    }
    assert_eq!(c.get_pool_contributions_paginated(pool_id, 1, u32::MAX).unwrap().len(), 2);
    assert_eq!(c.get_pool_contributions_paginated(pool_id, u32::MAX, 5).unwrap().len(), 0);
    assert_eq!(c.get_pool_contributions_paginated(pool_id, 3, 1).unwrap().len(), 0);
    assert_eq!(c.get_pool_contributions_paginated(pool_id, 0, 0).unwrap().len(), 0);
}

#[test]
fn contribution_returns_the_inbound_transfer_and_counts_contributors() {
    let mut c = setup_test();
    let pool_id = c.create_pool(10, config("Test Pool", 10_000, 0, false, 100, 0)).unwrap();
    let t = c.contribute(pool_id, 7, TOKEN, 250, 5).unwrap();
    assert_eq!(t, Transfer { asset: TOKEN, from: 7, to: CONTRACT, amount: 250 });
    c.contribute(pool_id, 7, TOKEN, 50, 6).unwrap();
    c.contribute(pool_id, 8, TOKEN, 1, 7).unwrap();
    let pool = &c.pools[0];
    assert_eq!(pool.total_raised, 301);
    assert_eq!(pool.contributor_count, 2);
    assert_eq!(c.get_pool_contribution(pool_id, 7), Ok(300));
    assert_eq!(c.contribute(pool_id, 7, 901, 5, 8), Err(CrowdfundingError::TokenTransferFailed));
    assert_eq!(c.contribute(pool_id, 7, TOKEN, 0, 8), Err(CrowdfundingError::InvalidAmount));
    assert_eq!(c.contribute(99, 7, TOKEN, 5, 8), Err(CrowdfundingError::PoolNotFound));
}

#[test]
fn test_lock_released_after_each_call() {
    let mut c = setup_test();
    let pool_id = make_pool(&mut c);
    let contributor = 11;
    let first = full_refund(&mut c, pool_id, contributor, PAST_GRACE);
    assert_eq!(first, Err(CrowdfundingError::NoContributionToRefund));
    let second = full_refund(&mut c, pool_id, contributor, PAST_GRACE);
    assert_eq!(second, Err(CrowdfundingError::NoContributionToRefund));
    assert!(!c.guard.is_pool_locked(pool_id));
}

#[test]
fn test_double_withdrawal_prevented() {
    let mut c = setup_test();
    let pool_id = make_pool(&mut c);
    let contributor = 11;
    c.contribute(pool_id, contributor, TOKEN, 500_000, 1_000).unwrap();
    let first = full_refund(&mut c, pool_id, contributor, PAST_GRACE);
    assert_eq!(first, Ok(Transfer { asset: TOKEN, from: CONTRACT, to: contributor, amount: 500_000 }));
    let second = full_refund(&mut c, pool_id, contributor, PAST_GRACE);
    assert_eq!(second, Err(CrowdfundingError::NoContributionToRefund));
}

#[test]
fn reentrant_refund_finds_the_lock_held() {
    let mut c = setup_test();
    let pool_id = make_pool(&mut c);
    c.contribute(pool_id, 11, TOKEN, 500_000, 1_000).unwrap();
    c.contribute(pool_id, 12, TOKEN, 100, 1_000).unwrap();
    c.refund(pool_id, 11, PAST_GRACE).unwrap();
    assert!(c.guard.is_pool_locked(pool_id));
    assert_eq!(c.refund(pool_id, 12, PAST_GRACE), Err(CrowdfundingError::ReentrancyLocked));
    assert_eq!(c.pools[0].total_raised, 100);
    c.finish_refund(pool_id);
    assert!(!c.guard.is_pool_locked(pool_id));
    full_refund(&mut c, pool_id, 12, PAST_GRACE).unwrap();
    assert_eq!(c.pools[0].total_raised, 0);
}

#[test]
fn test_independent_contributors_refund_independently() {
    let mut c = setup_test();
    let pool_id = make_pool(&mut c);
    let (a, b) = (11, 12);
    c.contribute(pool_id, a, TOKEN, 200_000, 1_000).unwrap();
    c.contribute(pool_id, b, TOKEN, 300_000, 1_000).unwrap();
    assert!(full_refund(&mut c, pool_id, a, PAST_GRACE).is_ok());
    assert_eq!(full_refund(&mut c, pool_id, a, PAST_GRACE), Err(CrowdfundingError::NoContributionToRefund));
    assert!(full_refund(&mut c, pool_id, b, PAST_GRACE).is_ok());
    assert_eq!(full_refund(&mut c, pool_id, b, PAST_GRACE), Err(CrowdfundingError::NoContributionToRefund));
}

#[test]
fn test_refund_blocked_when_paused() {
    let mut c = setup_test();
    let pool_id = make_pool(&mut c);
    c.pause().unwrap();
    assert_eq!(full_refund(&mut c, pool_id, 11, PAST_GRACE), Err(CrowdfundingError::ContractPaused));
    assert!(!c.guard.is_pool_locked(pool_id));
}

#[test]
fn test_refund_rejected_before_deadline() {
    let mut c = setup_test();
    let pool_id = make_pool(&mut c);
    assert_eq!(full_refund(&mut c, pool_id, 11, 1_000), Err(CrowdfundingError::PoolNotExpired));
}

#[test]
fn test_refund_rejected_inside_grace_period() {
    let mut c = setup_test();
    let pool_id = make_pool(&mut c);
    assert_eq!(
        full_refund(&mut c, pool_id, 11, 1_001 + 604_800 - 1),
        Err(CrowdfundingError::RefundGracePeriodNotPassed)
    );
}

#[test]
fn test_refund_rejected_on_disbursed_pool() {
    let mut c = setup_test();
    let pool_id = make_pool(&mut c);
    let contributor = 11;
    c.contribute(pool_id, contributor, TOKEN, 100_000, 1_000).unwrap();
    c.update_pool_state(pool_id, PoolState::Disbursed).unwrap();
    assert_eq!(
        full_refund(&mut c, pool_id, contributor, PAST_GRACE),
        Err(CrowdfundingError::PoolAlreadyDisbursed)
    );
}

#[test]
fn refund_scenario_at_the_grace_boundary() {
    let mut c = setup_test();
    let pool_id = make_pool(&mut c);
    assert_eq!(full_refund(&mut c, pool_id, 11, PAST_GRACE), Err(CrowdfundingError::NoContributionToRefund));
    c.contribute(pool_id, 11, TOKEN, 500_000, 1_000).unwrap();
    assert!(full_refund(&mut c, pool_id, 11, PAST_GRACE).is_ok());
    assert_eq!(full_refund(&mut c, pool_id, 11, PAST_GRACE), Err(CrowdfundingError::NoContributionToRefund));
}

#[test]
fn save_pool_validates_its_inputs() {
    let mut c = setup_test();
    let meta = crowdfunding::types::PoolMetadata {
        description: b"d".to_vec(),
        external_url: Vec::new(),
        image_hash: vec![b'h'; 101],
    };
    assert_eq!(
        c.save_pool(b"P".to_vec(), meta.clone(), 10, 100, 50, None, None, 0),
        Err(CrowdfundingError::InvalidMetadata)
    );
    let ok_meta = crowdfunding::types::PoolMetadata { image_hash: vec![b'h'; 100], ..meta };
    assert_eq!(
        c.save_pool(Vec::new(), ok_meta.clone(), 10, 100, 50, None, None, 0),
        Err(CrowdfundingError::InvalidPoolName)
    );
    assert_eq!(
        c.save_pool(b"P".to_vec(), ok_meta.clone(), 10, 0, 50, None, None, 0),
        Err(CrowdfundingError::InvalidPoolTarget)
    );
    assert_eq!(
        c.save_pool(b"P".to_vec(), ok_meta.clone(), 10, 100, 50, None, None, 50),
        Err(CrowdfundingError::InvalidPoolDeadline)
    );
    assert_eq!(
        c.save_pool(b"P".to_vec(), ok_meta.clone(), 10, 100, 50, Some(0), Some(vec![1]), 0),
        Err(CrowdfundingError::InvalidMultiSigConfig)
    );
    assert_eq!(
        c.save_pool(b"P".to_vec(), ok_meta.clone(), 10, 100, 50, Some(2), Some(vec![1]), 0),
        Err(CrowdfundingError::InvalidMultiSigConfig)
    );
    assert_eq!(
        c.save_pool(b"P".to_vec(), ok_meta.clone(), 10, 100, 50, Some(1), None, 0),
        Err(CrowdfundingError::InvalidMultiSigConfig)
    );
    assert_eq!(
        c.save_pool(b"P".to_vec(), ok_meta.clone(), 10, 100, 50, Some(1), Some(vec![1, 1]), 0),
        Err(CrowdfundingError::InvalidMultiSigConfig)
    );
    assert_eq!(c.save_pool(b"P".to_vec(), ok_meta.clone(), 10, 100, 50, None, None, 10), Ok(1));
    assert_eq!(c.save_pool(b"Q".to_vec(), ok_meta, 10, 100, 50, Some(1), Some(vec![1]), 10), Ok(2));
    let p = c.get_pool(1).unwrap();
    assert_eq!(p.duration, 40);
    assert_eq!(p.created_at, 10);
    assert_eq!(c.get_pool_metadata(1).unwrap().image_hash.len(), 100);
    assert!(c.get_pool(3).is_none());
}
