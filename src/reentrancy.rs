use vstd::prelude::*;

use crate::errors::CrowdfundingError;

verus! {

/// Locks held while a fund-moving call is in flight: one per pool, for
/// refunds, and one global lock for the emergency withdrawal.
#[derive(Clone, Debug)]
pub struct ReentrancyGuard {
    pub pool_locks: Vec<u64>,
    pub emergency_locked: bool,
}

impl ReentrancyGuard {
    /// Whether the lock of pool `pool_id` is held.
    pub open spec fn pool_locked(&self, pool_id: u64) -> bool {
        self.pool_locks@.contains(pool_id)
    }

    /// A guard with no lock held.
    pub fn new() -> (g: ReentrancyGuard)
        ensures
            forall|p: u64| !g.pool_locked(p),
            !g.emergency_locked,
    {
        ReentrancyGuard { pool_locks: Vec::new(), emergency_locked: false }
    }

    /// Whether the lock of pool `pool_id` is held.
    pub fn is_pool_locked(&self, pool_id: u64) -> (r: bool)
        ensures
            r == self.pool_locked(pool_id),
    {
        let mut i: usize = 0;
        while i < self.pool_locks.len()
            invariant
                0 <= i <= self.pool_locks@.len(),
                forall|k: int| 0 <= k < i ==> self.pool_locks@[k] != pool_id,
            decreases self.pool_locks@.len() - i,
        {
            if self.pool_locks[i] == pool_id {
                return true;
            }
            i += 1;
        }
        false
    }
}

/// Takes the lock of pool `pool_id`; refused while it is held.
pub fn acquire_pool_lock(guard: &mut ReentrancyGuard, pool_id: u64) -> (r: Result<
    (),
    CrowdfundingError,
>)
    ensures
        old(guard).pool_locked(pool_id) ==> r == Err::<(), CrowdfundingError>(
            CrowdfundingError::ReentrancyLocked,
        ) && *final(guard) == *old(guard),
        !old(guard).pool_locked(pool_id) ==> r is Ok,
        r is Ok ==> forall|p: u64|
            #![auto]
            final(guard).pool_locked(p) == (old(guard).pool_locked(p) || p == pool_id),
        final(guard).emergency_locked == old(guard).emergency_locked,
{
    if guard.is_pool_locked(pool_id) {
        return Err(CrowdfundingError::ReentrancyLocked);
    }
    guard.pool_locks.push(pool_id);
    proof {
        assert forall|p: u64| #![auto]
            final(guard).pool_locked(p) == (old(guard).pool_locked(p) || p == pool_id) by {
            if guard.pool_locks@.contains(p) {
                let k = choose|k: int| 0 <= k < guard.pool_locks@.len() && guard.pool_locks@[k] == p;
                if k < old(guard).pool_locks@.len() {
                    assert(old(guard).pool_locks@[k] == p);
                }
            }
            if old(guard).pool_locks@.contains(p) {
                let k = choose|k: int| 0 <= k < old(guard).pool_locks@.len() && old(guard).pool_locks@[k] == p;
                assert(guard.pool_locks@[k] == p);
            }
            if p == pool_id {
                assert(guard.pool_locks@[guard.pool_locks@.len() - 1] == p);
            }
        }
    }
    Ok(())
}

/// The same as [`acquire_pool_lock`]: the first step of every refund.
pub fn reentrancy_lock_logic(guard: &mut ReentrancyGuard, pool_id: u64) -> (r: Result<
    (),
    CrowdfundingError,
>)
    ensures
        old(guard).pool_locked(pool_id) ==> r == Err::<(), CrowdfundingError>(
            CrowdfundingError::ReentrancyLocked,
        ) && *final(guard) == *old(guard),
        !old(guard).pool_locked(pool_id) ==> r is Ok,
        r is Ok ==> forall|p: u64|
            #![auto]
            final(guard).pool_locked(p) == (old(guard).pool_locked(p) || p == pool_id),
        final(guard).emergency_locked == old(guard).emergency_locked,
{
    acquire_pool_lock(guard, pool_id)
}

/// Releases the lock of pool `pool_id`; the other locks stay as they are.
pub fn release_pool_lock(guard: &mut ReentrancyGuard, pool_id: u64)
    ensures
        forall|p: u64|
            #![auto]
            final(guard).pool_locked(p) == (old(guard).pool_locked(p) && p != pool_id),
        final(guard).emergency_locked == old(guard).emergency_locked,
{
    let mut kept: Vec<u64> = Vec::new();
    let mut i: usize = 0;
    while i < guard.pool_locks.len()
        invariant
            0 <= i <= guard.pool_locks@.len(),
            forall|p: u64|
                #![auto]
                kept@.contains(p) <==> (p != pool_id && exists|k: int|
                    0 <= k < i && guard.pool_locks@[k] == p),
        decreases guard.pool_locks@.len() - i,
    {
        let p = guard.pool_locks[i];
        let ghost before = kept@;
        if p != pool_id {
            kept.push(p);
        }
        proof {
            assert forall|q: u64| #![auto]
                kept@.contains(q) <==> (q != pool_id && exists|k: int|
                    0 <= k < i + 1 && guard.pool_locks@[k] == q) by {
                if kept@.contains(q) {
                    let j = choose|j: int| 0 <= j < kept@.len() && kept@[j] == q;
                    if j < before.len() {
                        assert(before[j] == q);
                        assert(before.contains(q));
                    } else {
                        assert(guard.pool_locks@[i as int] == q);
                    }
                }
                if q != pool_id && exists|k: int| 0 <= k < i + 1 && guard.pool_locks@[k] == q {
                    let k = choose|k: int| 0 <= k < i + 1 && guard.pool_locks@[k] == q;
                    if k == i {
                        assert(kept@[kept@.len() - 1] == q);
                    } else {
                        assert(before.contains(q));
                        let j = choose|j: int| 0 <= j < before.len() && before[j] == q;
                        assert(kept@[j] == q);
                    }
                }
            }
        }
        i += 1;
    }
    guard.pool_locks = kept;
}

/// Takes the global emergency-withdrawal lock; refused while it is held.
pub fn acquire_emergency_lock(guard: &mut ReentrancyGuard) -> (r: Result<(), CrowdfundingError>)
    ensures
        old(guard).emergency_locked ==> r == Err::<(), CrowdfundingError>(
            CrowdfundingError::ReentrancyLocked,
        ),
        !old(guard).emergency_locked ==> r is Ok,
        final(guard).emergency_locked,
        final(guard).pool_locks == old(guard).pool_locks,
{
    if guard.emergency_locked {
        return Err(CrowdfundingError::ReentrancyLocked);
    }
    guard.emergency_locked = true;
    Ok(())
}

/// Releases the global emergency-withdrawal lock.
pub fn release_emergency_lock(guard: &mut ReentrancyGuard)
    ensures
        !final(guard).emergency_locked,
        final(guard).pool_locks == old(guard).pool_locks,
{
    guard.emergency_locked = false;
}

} // verus!
