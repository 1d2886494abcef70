//! Properties that relate several operations of the ledger, each proved
//! from the operations' own contracts.
use vstd::prelude::*;

use crate::contract::CrowdfundingContract;
use crate::errors::CrowdfundingError;
use crate::campaign::contribution_index;
use crate::pool::page;
use crate::types::{Address, CampaignRecord, Contribution, PoolContribution, PoolState};

verus! {

/// After a refund from a pool has gone through and released its lock, a
/// second refund for the same pool and contributor, at the same time or
/// later, fails because nothing is left to refund. While the first refund's
/// transfer is still in flight, a reentrant refund of the same pool finds
/// the lock held.
pub proof fn lemma_refund_idempotent(
    s0: CrowdfundingContract,
    s1: CrowdfundingContract,
    s2: CrowdfundingContract,
    pool_id: u64,
    contributor: Address,
    now: u64,
    later: u64,
    other: Address,
)
    requires
        s0.wf(),
        s0.refund_error(pool_id, contributor, now) is None,
        CrowdfundingContract::refund_effect(s0, s1, pool_id, contributor),
        CrowdfundingContract::pool_lock_released(s1, s2, pool_id),
        now <= later,
    ensures
        s1.refund_error(pool_id, other, later) == Some(CrowdfundingError::ReentrancyLocked),
        s2.refund_error(pool_id, contributor, later) == Some(
            CrowdfundingError::NoContributionToRefund,
        ),
{
    let o = s0.pool(pool_id).contributions@;
    let n = s2.pool(pool_id).contributions@;
    let k = crate::pool::pool_contribution_index(o, contributor);
    assert(s0.pools@[pool_id - 1].wf(((pool_id - 1) + 1) as u64));
    assert(o[k].contributor == contributor);
    assert(n[k].contributor == contributor);
    assert(crate::pool::has_pool_contribution(n, contributor));
    let j = crate::pool::pool_contribution_index(n, contributor);
    assert(n[j].contributor == contributor);
    assert(o[j].contributor == contributor);
}

/// A refund leaves no lock behind once its call is complete: whether it
/// fails (the state is unchanged) or goes through and its lock is released,
/// the locks are as before.
pub proof fn lemma_refund_releases_lock(
    s0: CrowdfundingContract,
    s1: CrowdfundingContract,
    s2: CrowdfundingContract,
    pool_id: u64,
    contributor: Address,
)
    requires
        CrowdfundingContract::refund_effect(s0, s1, pool_id, contributor),
        CrowdfundingContract::pool_lock_released(s1, s2, pool_id),
        !s0.guard.pool_locked(pool_id),
    ensures
        !s2.guard.pool_locked(pool_id),
        forall|p: u64| #![auto] s2.guard.pool_locked(p) == s0.guard.pool_locked(p),
        s2.guard.emergency_locked == s0.guard.emergency_locked,
{
}

/// The emergency withdrawal leaves no lock behind once its call is
/// complete, and a second execution after it finds no request.
pub proof fn lemma_emergency_releases_lock(
    s0: CrowdfundingContract,
    s1: CrowdfundingContract,
    s2: CrowdfundingContract,
    later: u64,
)
    requires
        CrowdfundingContract::emergency_effect(s0, s1),
        CrowdfundingContract::emergency_lock_released(s1, s2),
        s0.admin is Some,
    ensures
        !s2.guard.emergency_locked,
        s2.guard.pool_locks == s0.guard.pool_locks,
        s1.execute_emergency_error(later) == Some(CrowdfundingError::ReentrancyLocked),
        s2.execute_emergency_error(later) == Some(
            CrowdfundingError::EmergencyWithdrawalNotRequested,
        ),
{
}

/// A request is executed only with at least as many approvals as the pool
/// requires, and a second execution after a successful one fails.
pub proof fn lemma_execute_once(
    s0: CrowdfundingContract,
    s1: CrowdfundingContract,
    pool_id: u64,
    id: u64,
)
    requires
        s0.execute_error(pool_id, id) is None,
        CrowdfundingContract::execute_effect(s0, s1, pool_id, id),
    ensures
        s0.disbursement(pool_id, id).approvals@.len() >= s0.pool(pool_id).required_approvals(),
        s1.execute_error(pool_id, id) == Some(CrowdfundingError::DisbursementAlreadyExecuted),
{
}

/// A page that starts at or after the end is empty; one that would run past
/// the end holds exactly the records from its start to the end; any page
/// holds at most `limit` records, in their order.
pub proof fn lemma_page_size(s: Seq<PoolContribution>, offset: int, limit: int)
    requires
        offset >= 0,
        limit >= 0,
    ensures
        offset >= s.len() ==> page(s, offset, limit).len() == 0,
        offset < s.len() && offset + limit > s.len() ==> page(s, offset, limit).len() == s.len()
            - offset,
        page(s, offset, limit).len() <= limit,
        forall|i: int|
            0 <= i < page(s, offset, limit).len() ==> page(s, offset, limit)[i] == s[offset + i],
{
}

/// A campaign pays out once: after a successful claim, claiming it again
/// fails because it was already claimed.
pub proof fn lemma_claim_once(s0: CrowdfundingContract, s1: CrowdfundingContract, id: u64)
    requires
        s0.wf(),
        s0.claim_error(id) is None,
        CrowdfundingContract::campaign_replaced(
            s0,
            s1,
            s0.campaign_index(id),
            CampaignRecord { claimed: true, ..s0.campaign(id) },
        ),
    ensures
        s1.claim_error(id) == Some(CrowdfundingError::CampaignAlreadyFunded),
{
    let i = s0.campaign_index(id);
    assert(s1.campaigns@[i].details.id == id);
    let j = s1.campaign_index(id);
    assert(s1.campaigns@[j].details.id == id);
    assert(s0.campaigns@[j].details.id == id);
}

/// A donor of a cancelled campaign is refunded once: after a successful
/// refund, a second one for the same donor fails because nothing is left.
pub proof fn lemma_campaign_refund_once(
    s0: CrowdfundingContract,
    s1: CrowdfundingContract,
    id: u64,
    contributor: Address,
)
    requires
        s0.wf(),
        s0.refund_campaign_error(id, contributor) is None,
        CrowdfundingContract::campaign_replaced(s0, s1, s0.campaign_index(id), s1.campaigns@[s0.campaign_index(id)]),
        s1.campaigns@[s0.campaign_index(id)] == (CampaignRecord {
            contributions: s1.campaigns@[s0.campaign_index(id)].contributions,
            ..s0.campaign(id)
        }),
        s1.campaigns@[s0.campaign_index(id)].contributions@ == s0.campaign(id).contributions@.update(
            contribution_index(s0.campaign(id).contributions@, contributor),
            Contribution { contributor, amount: 0 },
        ),
    ensures
        s1.refund_campaign_error(id, contributor) == Some(CrowdfundingError::NoContributionToRefund),
{
    let i = s0.campaign_index(id);
    assert(s1.campaigns@[i].details.id == id);
    let j = s1.campaign_index(id);
    assert(s1.campaigns@[j].details.id == id);
    assert(s0.campaigns@[j].details.id == id);
    let o = s0.campaign(id).contributions@;
    let n = s1.campaign(id).contributions@;
    let k = contribution_index(o, contributor);
    assert(s0.campaigns@[i].wf());
    assert(o[k].contributor == contributor);
    assert(n[k].contributor == contributor);
    let m = contribution_index(n, contributor);
    assert(n[m].contributor == contributor);
    assert(o[m].contributor == contributor);
}

/// A closed pool stays closed: no state update and no second closing is
/// accepted for it.
pub proof fn lemma_closed_is_absorbing(
    s: CrowdfundingContract,
    pool_id: u64,
    new_state: PoolState,
    caller: Address,
)
    requires
        s.has_pool(pool_id),
        s.pool(pool_id).state == PoolState::Closed,
    ensures
        s.update_pool_state_error(pool_id, new_state) is Some,
        s.close_pool_error(pool_id, caller) is Some,
{
}

/// A completed pool can only be closed: every other state update is
/// refused.
pub proof fn lemma_completed_only_closes(s: CrowdfundingContract, pool_id: u64, new_state: PoolState)
    requires
        s.has_pool(pool_id),
        s.pool(pool_id).state == PoolState::Completed,
        new_state != PoolState::Closed,
    ensures
        s.update_pool_state_error(pool_id, new_state) is Some,
{
}

/// Renouncing the admin role is final: once a ledger that had an admin has
/// none, it is still marked initialized, so initializing it again is
/// refused and no admin can be installed that way.
pub proof fn lemma_renounce_is_final(s0: CrowdfundingContract, s1: CrowdfundingContract)
    requires
        s0.wf(),
        s0.admin is Some,
        s1 == (CrowdfundingContract { admin: None, ..s0 }),
    ensures
        s1.initialized,
        s1.admin is None,
{
}

} // verus!
