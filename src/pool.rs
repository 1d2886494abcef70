use vstd::prelude::*;

use crate::contract::{error_of, CrowdfundingContract};
use crate::errors::CrowdfundingError;
use crate::reentrancy::{acquire_pool_lock, release_pool_lock};
use crate::types::{
    sum_amounts, Address, MultiSigConfig, PoolConfig, PoolContribution, PoolMetadata, PoolRecord,
    PoolState, Transfer, REFUND_GRACE_PERIOD,
};

verus! {

/// Longest accepted pool description, in bytes.
pub const MAX_DESCRIPTION_LENGTH: usize = 500;

/// Longest accepted external URL of a pool, in bytes.
pub const MAX_URL_LENGTH: usize = 200;

/// Longest accepted image hash of a pool, in bytes.
pub const MAX_HASH_LENGTH: usize = 100;

/// Whether `who` has a record in `s`.
pub open spec fn has_pool_contribution(s: Seq<PoolContribution>, who: Address) -> bool {
    exists|i: int| 0 <= i < s.len() && s[i].contributor == who
}

/// The position of `who`'s record in `s`.
pub open spec fn pool_contribution_index(s: Seq<PoolContribution>, who: Address) -> int {
    choose|i: int| 0 <= i < s.len() && s[i].contributor == who
}

/// What `who` has in the pool, as recorded in `s`; zero without a record.
pub open spec fn pool_contribution_amount(s: Seq<PoolContribution>, who: Address) -> int {
    if has_pool_contribution(s, who) {
        s[pool_contribution_index(s, who)].amount as int
    } else {
        0
    }
}

/// The records `s` of pool `pool_id` after `who` gave `amount` of `asset`.
pub open spec fn pool_contributions_after(
    s: Seq<PoolContribution>,
    pool_id: u64,
    who: Address,
    asset: Address,
    amount: int,
) -> Seq<PoolContribution> {
    if has_pool_contribution(s, who) {
        let i = pool_contribution_index(s, who);
        s.update(
            i,
            PoolContribution { pool_id, contributor: who, amount: (s[i].amount + amount) as i128, asset },
        )
    } else {
        s.push(PoolContribution { pool_id, contributor: who, amount: amount as i128, asset })
    }
}

/// The sum after appending one record.
proof fn lemma_sum_push(s: Seq<PoolContribution>, x: PoolContribution)
    ensures
        sum_amounts(s.push(x)) == sum_amounts(s) + x.amount,
{
    assert(s.push(x).drop_last() == s);
}

/// The sum after replacing one record.
proof fn lemma_sum_update(s: Seq<PoolContribution>, i: int, x: PoolContribution)
    requires
        0 <= i < s.len(),
    ensures
        sum_amounts(s.update(i, x)) == sum_amounts(s) - s[i].amount + x.amount,
    decreases s.len(),
{
    if i == s.len() - 1 {
        assert(s.update(i, x).drop_last() == s.drop_last());
    } else {
        lemma_sum_update(s.drop_last(), i, x);
        assert(s.update(i, x).drop_last() == s.drop_last().update(i, x));
    }
}

/// No record exceeds the sum when none is negative.
proof fn lemma_sum_bounds(s: Seq<PoolContribution>, i: int)
    requires
        0 <= i < s.len(),
        forall|k: int| 0 <= k < s.len() ==> (#[trigger] s[k]).amount >= 0,
    ensures
        0 <= s[i].amount <= sum_amounts(s),
    decreases s.len(),
{
    lemma_sum_nonneg(s.drop_last());
    if i < s.len() - 1 {
        lemma_sum_bounds(s.drop_last(), i);
    }
}

/// The sum of records that are not negative is not negative.
proof fn lemma_sum_nonneg(s: Seq<PoolContribution>)
    requires
        forall|k: int| 0 <= k < s.len() ==> (#[trigger] s[k]).amount >= 0,
    ensures
        sum_amounts(s) >= 0,
    decreases s.len(),
{
    if s.len() > 0 {
        lemma_sum_nonneg(s.drop_last());
    }
}

/// The position of `who`'s record, for records that name each contributor
/// once.
fn find_pool_contribution(s: &Vec<PoolContribution>, who: Address) -> (r: Option<usize>)
    requires
        forall|i: int, j: int|
            0 <= i < s@.len() && 0 <= j < s@.len() && i != j ==> s@[i].contributor
                != s@[j].contributor,
    ensures
        r is None <==> !has_pool_contribution(s@, who),
        r matches Some(i) ==> i == pool_contribution_index(s@, who) && i < s@.len()
            && s@[i as int].contributor == who,
{
    let mut i: usize = 0;
    while i < s.len()
        invariant
            0 <= i <= s@.len(),
            forall|k: int| 0 <= k < i ==> s@[k].contributor != who,
            forall|a: int, b: int|
                0 <= a < s@.len() && 0 <= b < s@.len() && a != b ==> s@[a].contributor
                    != s@[b].contributor,
        decreases s@.len() - i,
    {
        if s[i].contributor == who {
            assert(has_pool_contribution(s@, who));
            assert(s@[pool_contribution_index(s@, who)].contributor == who);
            return Some(i);
        }
        i += 1;
    }
    None
}

/// Whether `s` names no address twice.
fn all_distinct(s: &Vec<Address>) -> (r: bool)
    ensures
        r == s@.no_duplicates(),
{
    let mut i: usize = 0;
    while i < s.len()
        invariant
            0 <= i <= s@.len(),
            forall|a: int, b: int| 0 <= a < i && 0 <= b < s@.len() && a != b ==> s@[a] != s@[b],
        decreases s@.len() - i,
    {
        let mut j: usize = 0;
        while j < s.len()
            invariant
                0 <= i < s@.len(),
                0 <= j <= s@.len(),
                forall|a: int, b: int| 0 <= a < i && 0 <= b < s@.len() && a != b ==> s@[a] != s@[b],
                forall|b: int| 0 <= b < j && b != i ==> s@[i as int] != s@[b],
            decreases s@.len() - j,
        {
            if j != i && s[i] == s[j] {
                return false;
            }
            j += 1;
        }
        i += 1;
    }
    true
}

impl CrowdfundingContract {
    /// Whether a pool with id `pool_id` exists.
    pub open spec fn has_pool(&self, pool_id: u64) -> bool {
        1 <= pool_id <= self.pools@.len()
    }

    /// The pool with id `pool_id`.
    pub open spec fn pool(&self, pool_id: u64) -> PoolRecord {
        self.pools@[pool_id - 1]
    }

    /// `new` is `old` with pool `pool_id` replaced by `rec`.
    pub open spec fn pool_replaced(
        old: CrowdfundingContract,
        new: CrowdfundingContract,
        pool_id: u64,
        rec: PoolRecord,
    ) -> bool {
        &&& new == (CrowdfundingContract { pools: new.pools, ..old })
        &&& new.pools@ == old.pools@.update(pool_id - 1, rec)
    }

    /// The checks of a new pool's figures, shared by both ways of creating
    /// one.
    pub open spec fn pool_figures_error(
        name: Seq<u8>,
        target_amount: i128,
        min_contribution: i128,
        created_at: u64,
        duration: u64,
    ) -> Option<CrowdfundingError> {
        if name.len() == 0 {
            Some(CrowdfundingError::InvalidPoolName)
        } else if target_amount <= 0 {
            Some(CrowdfundingError::InvalidPoolTarget)
        } else if min_contribution < 0 {
            Some(CrowdfundingError::InvalidAmount)
        } else if duration == 0 || created_at + duration + REFUND_GRACE_PERIOD > u64::MAX {
            Some(CrowdfundingError::InvalidPoolDeadline)
        } else {
            None
        }
    }

    /// The first check that `create_pool` fails, if any.
    pub open spec fn create_pool_error(&self, config: PoolConfig) -> Option<CrowdfundingError> {
        if self.pools_blocked() is Some {
            self.pools_blocked()
        } else if Self::pool_figures_error(
            config.name@,
            config.target_amount,
            config.min_contribution,
            config.created_at,
            config.duration,
        ) is Some {
            Self::pool_figures_error(
                config.name@,
                config.target_amount,
                config.min_contribution,
                config.created_at,
                config.duration,
            )
        } else if self.pools@.len() + 1 >= u64::MAX {
            Some(CrowdfundingError::PoolAlreadyExists)
        } else {
            None
        }
    }

    /// Whether `rec` is a fresh pool made from these values.
    pub open spec fn is_new_pool(
        rec: PoolRecord,
        config: PoolConfig,
        metadata: PoolMetadata,
        creator: Address,
        multi_sig: Option<MultiSigConfig>,
    ) -> bool {
        &&& rec.config == config
        &&& rec.metadata == metadata
        &&& rec.creator == creator
        &&& rec.state == PoolState::Active
        &&& rec.multi_sig == multi_sig
        &&& rec.total_raised == 0
        &&& rec.contributor_count == 0
        &&& rec.contributions@.len() == 0
        &&& rec.disbursements@.len() == 0
    }

    /// Appends a pool and returns its id.
    fn push_pool(&mut self, rec: PoolRecord) -> (pool_id: u64)
        requires
            old(self).wf(),
            old(self).pools@.len() + 1 < u64::MAX,
            rec.wf((old(self).pools@.len() + 1) as u64),
        ensures
            final(self).wf(),
            pool_id == old(self).pools@.len() + 1,
            *final(self) == (CrowdfundingContract { pools: final(self).pools, ..*old(self) }),
            final(self).pools@ == old(self).pools@.push(rec),
    {
        self.pools.push(rec);
        let pool_id = self.pools.len() as u64;
        proof {
            assert forall|i: int| 0 <= i < self.pools@.len() implies #[trigger] self.pools@[i].wf(
                (i + 1) as u64,
            ) by {
                if i < old(self).pools@.len() {
                    assert(old(self).pools@[i].wf((i + 1) as u64));
                }
            }
        }
        pool_id
    }

    /// Validates a new pool's figures.
    fn check_pool_figures(
        name: &Vec<u8>,
        target_amount: i128,
        min_contribution: i128,
        created_at: u64,
        duration: u64,
    ) -> (r: Result<(), CrowdfundingError>)
        ensures
            error_of(r) == Self::pool_figures_error(
                name@,
                target_amount,
                min_contribution,
                created_at,
                duration,
            ),
    {
        if name.len() == 0 {
            return Err(CrowdfundingError::InvalidPoolName);
        }
        if target_amount <= 0 {
            return Err(CrowdfundingError::InvalidPoolTarget);
        }
        if min_contribution < 0 {
            return Err(CrowdfundingError::InvalidAmount);
        }
        if duration == 0 || created_at > u64::MAX - REFUND_GRACE_PERIOD || duration > u64::MAX
            - REFUND_GRACE_PERIOD - created_at {
            return Err(CrowdfundingError::InvalidPoolDeadline);
        }
        Ok(())
    }

    /// Opens a pool from a full configuration; returns its id, the next in
    /// sequence from one.
    pub fn create_pool(&mut self, creator: Address, config: PoolConfig) -> (r: Result<
        u64,
        CrowdfundingError,
    >)
        requires
            old(self).wf(),
        ensures
            final(self).wf(),
            error_of(r) == old(self).create_pool_error(config),
            r is Err ==> *final(self) == *old(self),
            r is Ok ==> {
                &&& r == Ok::<u64, CrowdfundingError>((old(self).pools@.len() + 1) as u64)
                &&& *final(self) == (CrowdfundingContract { pools: final(self).pools, ..*old(self) })
                &&& final(self).pools@ == old(self).pools@.push(final(self).pools@.last())
                &&& final(self).pools@.len() == old(self).pools@.len() + 1
                &&& Self::is_new_pool(
                    final(self).pools@.last(),
                    config,
                    PoolMetadata {
                        description: final(self).pools@.last().metadata.description,
                        external_url: final(self).pools@.last().metadata.external_url,
                        image_hash: final(self).pools@.last().metadata.image_hash,
                    },
                    creator,
                    None,
                )
                &&& final(self).pools@.last().metadata.description@.len() == 0
                &&& final(self).pools@.last().metadata.external_url@.len() == 0
                &&& final(self).pools@.last().metadata.image_hash@.len() == 0
            },
    {
        self.pools_blocked_check()?;
        Self::check_pool_figures(
            &config.name,
            config.target_amount,
            config.min_contribution,
            config.created_at,
            config.duration,
        )?;
        if self.pools.len() as u64 >= u64::MAX - 1 {
            return Err(CrowdfundingError::PoolAlreadyExists);
        }
        let rec = PoolRecord {
            config,
            metadata: PoolMetadata {
                description: Vec::new(),
                external_url: Vec::new(),
                image_hash: Vec::new(),
            },
            creator,
            state: PoolState::Active,
            multi_sig: None,
            total_raised: 0,
            contributor_count: 0,
            last_contribution_at: 0,
            contributions: Vec::new(),
            disbursements: Vec::new(),
        };
        let pool_id = self.push_pool(rec);
        proof {
            assert(self.pools@.drop_last() == old(self).pools@);
        }
        Ok(pool_id)
    }

    /// The multi-signature configuration that `save_pool` derives from its
    /// two optional arguments, or the error it gives.
    pub open spec fn multi_sig_of(
        required_signatures: Option<u32>,
        signers: Option<Seq<Address>>,
    ) -> Result<Option<(u32, Seq<Address>)>, CrowdfundingError> {
        match (required_signatures, signers) {
            (Some(req), Some(list)) => if req == 0 || req > list.len() {
                Err(CrowdfundingError::InvalidMultiSigConfig)
            } else if list.len() == 0 {
                Err(CrowdfundingError::InvalidSignerCount)
            } else if !list.no_duplicates() {
                Err(CrowdfundingError::InvalidMultiSigConfig)
            } else {
                Ok(Some((req, list)))
            },
            (None, None) => Ok(None),
            _ => Err(CrowdfundingError::InvalidMultiSigConfig),
        }
    }

    /// The first check that `save_pool` fails, if any.
    pub open spec fn save_pool_error(
        &self,
        name: Seq<u8>,
        metadata: PoolMetadata,
        target_amount: i128,
        deadline: u64,
        required_signatures: Option<u32>,
        signers: Option<Seq<Address>>,
        now: u64,
    ) -> Option<CrowdfundingError> {
        if self.pools_blocked() is Some {
            self.pools_blocked()
        } else if name.len() == 0 {
            Some(CrowdfundingError::InvalidPoolName)
        } else if target_amount <= 0 {
            Some(CrowdfundingError::InvalidPoolTarget)
        } else if deadline <= now {
            Some(CrowdfundingError::InvalidPoolDeadline)
        } else if metadata.description@.len() > MAX_DESCRIPTION_LENGTH
            || metadata.external_url@.len() > MAX_URL_LENGTH || metadata.image_hash@.len()
            > MAX_HASH_LENGTH {
            Some(CrowdfundingError::InvalidMetadata)
        } else if Self::multi_sig_of(required_signatures, signers) is Err {
            error_of(Self::multi_sig_of(required_signatures, signers))
        } else if deadline + REFUND_GRACE_PERIOD > u64::MAX {
            Some(CrowdfundingError::InvalidPoolDeadline)
        } else if self.pools@.len() + 1 >= u64::MAX {
            Some(CrowdfundingError::PoolAlreadyExists)
        } else {
            None
        }
    }

    /// Opens a public pool that runs from `now` to `deadline`, with an
    /// optional multi-signature configuration; returns its id.
    pub fn save_pool(
        &mut self,
        name: Vec<u8>,
        metadata: PoolMetadata,
        creator: Address,
        target_amount: i128,
        deadline: u64,
        required_signatures: Option<u32>,
        signers: Option<Vec<Address>>,
        now: u64,
    ) -> (r: Result<u64, CrowdfundingError>)
        requires
            old(self).wf(),
        ensures
            final(self).wf(),
            error_of(r) == old(self).save_pool_error(
                name@,
                metadata,
                target_amount,
                deadline,
                required_signatures,
                match signers {
                    Some(v) => Some(v@),
                    None => None,
                },
                now,
            ),
            r is Err ==> *final(self) == *old(self),
            r is Ok ==> ({
                let rec = final(self).pools@.last();
                &&& r == Ok::<u64, CrowdfundingError>((old(self).pools@.len() + 1) as u64)
                &&& *final(self) == (CrowdfundingContract { pools: final(self).pools, ..*old(self) })
                &&& final(self).pools@ == old(self).pools@.push(final(self).pools@.last())
                &&& final(self).pools@.len() == old(self).pools@.len() + 1
                &&& rec.config.description@ == metadata.description@
                &&& rec.config == (PoolConfig {
                    name,
                    description: rec.config.description,
                    target_amount,
                    min_contribution: 0,
                    is_private: false,
                    duration: (deadline - now) as u64,
                    created_at: now,
                })
                &&& Self::is_new_pool(rec, rec.config, metadata, creator, rec.multi_sig)
                &&& match Self::multi_sig_of(
                    required_signatures,
                    match signers {
                        Some(v) => Some(v@),
                        None => None,
                    },
                ) {
                    Ok(Some((req, list))) => (rec.multi_sig matches Some(m) && m.required_signatures
                        == req && m.signers@ == list),
                    _ => rec.multi_sig is None,
                }
            }),
    {
        self.pools_blocked_check()?;
        if name.len() == 0 {
            return Err(CrowdfundingError::InvalidPoolName);
        }
        if target_amount <= 0 {
            return Err(CrowdfundingError::InvalidPoolTarget);
        }
        if deadline <= now {
            return Err(CrowdfundingError::InvalidPoolDeadline);
        }
        if metadata.description.len() > MAX_DESCRIPTION_LENGTH || metadata.external_url.len()
            > MAX_URL_LENGTH || metadata.image_hash.len() > MAX_HASH_LENGTH {
            return Err(CrowdfundingError::InvalidMetadata);
        }
        let multi_sig = match (required_signatures, signers) {
            (Some(req), Some(list)) => {
                if req == 0 || req as usize > list.len() {
                    return Err(CrowdfundingError::InvalidMultiSigConfig);
                }
                if list.len() == 0 {
                    return Err(CrowdfundingError::InvalidSignerCount);
                }
                if !all_distinct(&list) {
                    return Err(CrowdfundingError::InvalidMultiSigConfig);
                }
                Some(MultiSigConfig { required_signatures: req, signers: list })
            },
            (None, None) => None,
            _ => return Err(CrowdfundingError::InvalidMultiSigConfig),
        };
        if deadline > u64::MAX - REFUND_GRACE_PERIOD {
            return Err(CrowdfundingError::InvalidPoolDeadline);
        }
        if self.pools.len() as u64 >= u64::MAX - 1 {
            return Err(CrowdfundingError::PoolAlreadyExists);
        }
        let description = metadata.description.clone();
        let config = PoolConfig {
            name,
            description,
            target_amount,
            min_contribution: 0,
            is_private: false,
            duration: deadline - now,
            created_at: now,
        };
        let rec = PoolRecord {
            config,
            metadata,
            creator,
            state: PoolState::Active,
            multi_sig,
            total_raised: 0,
            contributor_count: 0,
            last_contribution_at: 0,
            contributions: Vec::new(),
            disbursements: Vec::new(),
        };
        let pool_id = self.push_pool(rec);
        proof {
            assert(self.pools@.drop_last() == old(self).pools@);
        }
        Ok(pool_id)
    }

    /// The first check that `contribute` fails, if any.
    pub open spec fn contribute_error(
        &self,
        pool_id: u64,
        contributor: Address,
        asset: Address,
        amount: i128,
    ) -> Option<CrowdfundingError> {
        let p = self.pool(pool_id);
        let s = p.contributions@;
        if self.pools_blocked() is Some {
            self.pools_blocked()
        } else if amount <= 0 {
            Some(CrowdfundingError::InvalidAmount)
        } else if !self.has_pool(pool_id) {
            Some(CrowdfundingError::PoolNotFound)
        } else if p.state == PoolState::Closed {
            Some(CrowdfundingError::PoolAlreadyClosed)
        } else if p.state != PoolState::Active {
            Some(CrowdfundingError::InvalidPoolState)
        } else if amount < p.config.min_contribution {
            Some(CrowdfundingError::InvalidAmount)
        } else if pool_contribution_amount(s, contributor) > 0
            && s[pool_contribution_index(s, contributor)].asset != asset {
            Some(CrowdfundingError::TokenTransferFailed)
        } else if p.total_raised + amount > i128::MAX {
            Some(CrowdfundingError::InvalidAmount)
        } else {
            None
        }
    }

    /// Books `amount` of `asset` from `contributor` to pool `pool_id` and
    /// returns the transfer that brings the funds in.
    pub fn contribute(
        &mut self,
        pool_id: u64,
        contributor: Address,
        asset: Address,
        amount: i128,
        now: u64,
    ) -> (r: Result<Transfer, CrowdfundingError>)
        requires
            old(self).wf(),
        ensures
            final(self).wf(),
            error_of(r) == old(self).contribute_error(pool_id, contributor, asset, amount),
            r is Err ==> *final(self) == *old(self),
            r is Ok ==> ({
                let o = old(self).pool(pool_id);
                let n = final(self).pool(pool_id);
                &&& Self::pool_replaced(*old(self), *final(self), pool_id, n)
                &&& n == (PoolRecord {
                    total_raised: (o.total_raised + amount) as i128,
                    contributor_count: if pool_contribution_amount(o.contributions@, contributor)
                        == 0 && o.contributor_count < u32::MAX {
                        (o.contributor_count + 1) as u32
                    } else {
                        o.contributor_count
                    },
                    last_contribution_at: now,
                    contributions: n.contributions,
                    ..o
                })
                &&& n.contributions@ == pool_contributions_after(
                    o.contributions@,
                    pool_id,
                    contributor,
                    asset,
                    amount as int,
                )
                &&& r == Ok::<Transfer, CrowdfundingError>(
                    Transfer { asset, from: contributor, to: old(self).contract_address, amount },
                )
            }),
    {
        self.pools_blocked_check()?;
        if amount <= 0 {
            return Err(CrowdfundingError::InvalidAmount);
        }
        if pool_id == 0 || pool_id > self.pools.len() as u64 {
            return Err(CrowdfundingError::PoolNotFound);
        }
        let i = (pool_id - 1) as usize;
        if self.pools[i].state == PoolState::Closed {
            return Err(CrowdfundingError::PoolAlreadyClosed);
        }
        if self.pools[i].state != PoolState::Active {
            return Err(CrowdfundingError::InvalidPoolState);
        }
        if amount < self.pools[i].config.min_contribution {
            return Err(CrowdfundingError::InvalidAmount);
        }
        proof {
            assert(self.pools@[i as int].wf((i + 1) as u64));
        }
        let k = find_pool_contribution(&self.pools[i].contributions, contributor);
        let previous: i128 = match k {
            Some(k) => self.pools[i].contributions[k].amount,
            None => 0,
        };
        if let Some(k) = k {
            if previous > 0 && self.pools[i].contributions[k].asset != asset {
                return Err(CrowdfundingError::TokenTransferFailed);
            }
        }
        let total = match self.pools[i].total_raised.checked_add(amount) {
            Some(t) => t,
            None => return Err(CrowdfundingError::InvalidAmount),
        };
        let ghost s = self.pools@[i as int].contributions@;
        proof {
            if let Some(k) = k {
                lemma_sum_bounds(s, k as int);
            }
        }
        let entry = PoolContribution { pool_id, contributor, amount: previous + amount, asset };
        let rec = &mut self.pools[i];
        if previous == 0 && rec.contributor_count < u32::MAX {
            rec.contributor_count = rec.contributor_count + 1;
        }
        rec.total_raised = total;
        rec.last_contribution_at = now;
        match k {
            Some(k) => {
                proof {
                    lemma_sum_update(s, k as int, entry);
                }
                rec.contributions.set(k, entry);
            },
            None => {
                proof {
                    lemma_sum_push(s, entry);
                }
                rec.contributions.push(entry);
            },
        }
        proof {
            let n = self.pools@[i as int];
            assert(n.wf(pool_id)) by {
                assert forall|a: int, b: int|
                    0 <= a < n.contributions@.len() && 0 <= b < n.contributions@.len() && a != b
                        implies n.contributions@[a].contributor != n.contributions@[b].contributor by {
                    if a < s.len() && b < s.len() {
                    } else if a >= s.len() {
                        assert(!has_pool_contribution(s, contributor));
                        assert(s[b].contributor != contributor);
                    } else {
                        assert(!has_pool_contribution(s, contributor));
                        assert(s[a].contributor != contributor);
                    }
                }
            }
            assert forall|a: int| 0 <= a < self.pools@.len() implies #[trigger] self.pools@[a].wf(
                (a + 1) as u64,
            ) by {
                if a != i {
                    assert(old(self).pools@[a].wf((a + 1) as u64));
                }
            }
        }
        Ok(Transfer { asset, from: contributor, to: self.contract_address, amount })
    }

    /// The first check that `refund` fails, if any.
    pub open spec fn refund_error(&self, pool_id: u64, contributor: Address, now: u64) -> Option<
        CrowdfundingError,
    > {
        let p = self.pool(pool_id);
        let deadline = p.config.created_at + p.config.duration;
        if self.guard.pool_locked(pool_id) {
            Some(CrowdfundingError::ReentrancyLocked)
        } else if self.pools_blocked() is Some {
            self.pools_blocked()
        } else if !self.has_pool(pool_id) {
            Some(CrowdfundingError::PoolNotFound)
        } else if p.config.duration == 0 {
            Some(CrowdfundingError::RefundNotAvailable)
        } else if now < deadline {
            Some(CrowdfundingError::PoolNotExpired)
        } else if p.state == PoolState::Disbursed {
            Some(CrowdfundingError::PoolAlreadyDisbursed)
        } else if now < deadline + REFUND_GRACE_PERIOD {
            Some(CrowdfundingError::RefundGracePeriodNotPassed)
        } else if pool_contribution_amount(p.contributions@, contributor) <= 0 {
            Some(CrowdfundingError::NoContributionToRefund)
        } else {
            None
        }
    }

    /// What a successful refund does: the pool's lock is taken, the
    /// contributor's balance zeroed and the pool's total lowered by it;
    /// nothing else changes.
    pub open spec fn refund_effect(
        old: CrowdfundingContract,
        new: CrowdfundingContract,
        pool_id: u64,
        contributor: Address,
    ) -> bool {
        let o = old.pool(pool_id);
        let n = new.pool(pool_id);
        let k = pool_contribution_index(o.contributions@, contributor);
        &&& new == (CrowdfundingContract { pools: new.pools, guard: new.guard, ..old })
        &&& new.pools@ == old.pools@.update(pool_id - 1, n)
        &&& forall|p: u64|
            #![auto]
            new.guard.pool_locked(p) == (old.guard.pool_locked(p) || p == pool_id)
        &&& new.guard.emergency_locked == old.guard.emergency_locked
        &&& n == (PoolRecord {
            total_raised: (o.total_raised - o.contributions@[k].amount) as i128,
            contributions: n.contributions,
            ..o
        })
        &&& n.contributions@ == o.contributions@.update(
            k,
            PoolContribution { amount: 0, ..o.contributions@[k] },
        )
    }

    /// The transfer of a successful refund: the contributor's whole balance,
    /// in the asset it was given in.
    pub open spec fn refund_payout(&self, pool_id: u64, contributor: Address) -> Transfer {
        let c = self.pool(pool_id).contributions@[pool_contribution_index(
            self.pool(pool_id).contributions@,
            contributor,
        )];
        Transfer { asset: c.asset, from: self.contract_address, to: contributor, amount: c.amount }
    }

    /// What releasing the lock of pool `pool_id` does, and nothing else.
    pub open spec fn pool_lock_released(
        old: CrowdfundingContract,
        new: CrowdfundingContract,
        pool_id: u64,
    ) -> bool {
        &&& new == (CrowdfundingContract { guard: new.guard, ..old })
        &&& forall|p: u64|
            #![auto]
            new.guard.pool_locked(p) == (old.guard.pool_locked(p) && p != pool_id)
        &&& new.guard.emergency_locked == old.guard.emergency_locked
    }

    /// First step of a refund from pool `pool_id` to `contributor`, once the
    /// pool's deadline and grace period have passed: takes the pool's lock,
    /// zeroes the contributor's balance and lowers the pool's total, and
    /// returns the transfer that pays the balance back. The lock stays held
    /// until [`Self::finish_refund`], which the host calls once the transfer
    /// is done; a failed call leaves the state as it was, lock included.
    pub fn refund(&mut self, pool_id: u64, contributor: Address, now: u64) -> (r: Result<
        Transfer,
        CrowdfundingError,
    >)
        requires
            old(self).wf(),
        ensures
            final(self).wf(),
            error_of(r) == old(self).refund_error(pool_id, contributor, now),
            r is Err ==> *final(self) == *old(self),
            r is Ok ==> Self::refund_effect(*old(self), *final(self), pool_id, contributor) && r
                == Ok::<Transfer, CrowdfundingError>(old(self).refund_payout(pool_id, contributor)),
    {
        if self.guard.is_pool_locked(pool_id) {
            return Err(CrowdfundingError::ReentrancyLocked);
        }
        self.pools_blocked_check()?;
        if pool_id == 0 || pool_id > self.pools.len() as u64 {
            return Err(CrowdfundingError::PoolNotFound);
        }
        let i = (pool_id - 1) as usize;
        proof {
            assert(self.pools@[i as int].wf((i + 1) as u64));
        }
        let duration = self.pools[i].config.duration;
        if duration == 0 {
            return Err(CrowdfundingError::RefundNotAvailable);
        }
        let deadline = self.pools[i].config.created_at + duration;
        if now < deadline {
            return Err(CrowdfundingError::PoolNotExpired);
        }
        if self.pools[i].state == PoolState::Disbursed {
            return Err(CrowdfundingError::PoolAlreadyDisbursed);
        }
        if now < deadline + REFUND_GRACE_PERIOD {
            return Err(CrowdfundingError::RefundGracePeriodNotPassed);
        }
        let k = match find_pool_contribution(&self.pools[i].contributions, contributor) {
            Some(k) => k,
            None => return Err(CrowdfundingError::NoContributionToRefund),
        };
        let entry = self.pools[i].contributions[k];
        if entry.amount <= 0 {
            return Err(CrowdfundingError::NoContributionToRefund);
        }
        let ghost s = self.pools@[i as int].contributions@;
        proof {
            lemma_sum_bounds(s, k as int);
        }
        let acquired = acquire_pool_lock(&mut self.guard, pool_id);
        assert(acquired is Ok);
        let zeroed = PoolContribution { amount: 0, ..entry };
        proof {
            lemma_sum_update(s, k as int, zeroed);
        }
        let rec = &mut self.pools[i];
        rec.total_raised = rec.total_raised - entry.amount;
        rec.contributions.set(k, zeroed);
        proof {
            let n = self.pools@[i as int];
            assert(n.wf(pool_id));
            assert forall|a: int| 0 <= a < self.pools@.len() implies #[trigger] self.pools@[a].wf(
                (a + 1) as u64,
            ) by {
                if a != i {
                    assert(old(self).pools@[a].wf((a + 1) as u64));
                }
            }
        }
        Ok(Transfer { asset: entry.asset, from: self.contract_address, to: contributor, amount: entry.amount })
    }

    /// Last step of a refund from pool `pool_id`, once its transfer is done:
    /// releases the pool's lock.
    pub fn finish_refund(&mut self, pool_id: u64)
        requires
            old(self).wf(),
        ensures
            final(self).wf(),
            Self::pool_lock_released(*old(self), *final(self), pool_id),
    {
        release_pool_lock(&mut self.guard, pool_id);
    }

    /// The first check that `close_pool` fails, if any.
    pub open spec fn close_pool_error(&self, pool_id: u64, caller: Address) -> Option<
        CrowdfundingError,
    > {
        let p = self.pool(pool_id);
        let is_creator = caller == p.creator;
        let is_admin = self.admin == Some(caller);
        if self.pools_blocked() is Some {
            self.pools_blocked()
        } else if !self.has_pool(pool_id) {
            Some(CrowdfundingError::PoolNotFound)
        } else if p.state == PoolState::Closed {
            Some(CrowdfundingError::PoolAlreadyClosed)
        } else if self.admin is None {
            Some(CrowdfundingError::NotInitialized)
        } else if !is_creator && !is_admin {
            Some(CrowdfundingError::Unauthorized)
        } else if is_creator && p.config.is_private {
            if p.state == PoolState::Active || p.state == PoolState::Paused || p.state
                == PoolState::Cancelled || p.state == PoolState::Disbursed {
                None
            } else {
                Some(CrowdfundingError::InvalidPoolState)
            }
        } else if p.state == PoolState::Disbursed || p.state == PoolState::Cancelled {
            None
        } else {
            Some(CrowdfundingError::PoolNotDisbursedOrRefunded)
        }
    }

    /// Closes pool `pool_id` for good, on behalf of `caller`: the creator of
    /// a private pool may close it from any live state, anyone else entitled
    /// (the creator of a public pool, or the admin) only once it was
    /// disbursed or cancelled.
    pub fn close_pool(&mut self, pool_id: u64, caller: Address) -> (r: Result<(), CrowdfundingError>)
        requires
            old(self).wf(),
        ensures
            final(self).wf(),
            error_of(r) == old(self).close_pool_error(pool_id, caller),
            r is Err ==> *final(self) == *old(self),
            r is Ok ==> Self::pool_replaced(
                *old(self),
                *final(self),
                pool_id,
                PoolRecord { state: PoolState::Closed, ..old(self).pool(pool_id) },
            ),
    {
        self.pools_blocked_check()?;
        if pool_id == 0 || pool_id > self.pools.len() as u64 {
            return Err(CrowdfundingError::PoolNotFound);
        }
        let i = (pool_id - 1) as usize;
        let state = self.pools[i].state;
        if state == PoolState::Closed {
            return Err(CrowdfundingError::PoolAlreadyClosed);
        }
        let admin = match self.admin {
            Some(a) => a,
            None => return Err(CrowdfundingError::NotInitialized),
        };
        let is_creator = caller == self.pools[i].creator;
        let is_admin = caller == admin;
        if !is_creator && !is_admin {
            return Err(CrowdfundingError::Unauthorized);
        }
        if is_creator && self.pools[i].config.is_private {
            if state != PoolState::Active && state != PoolState::Paused && state
                != PoolState::Cancelled && state != PoolState::Disbursed {
                return Err(CrowdfundingError::InvalidPoolState);
            }
        } else if state != PoolState::Disbursed && state != PoolState::Cancelled {
            return Err(CrowdfundingError::PoolNotDisbursedOrRefunded);
        }
        self.pools[i].state = PoolState::Closed;
        proof {
            assert forall|a: int| 0 <= a < self.pools@.len() implies #[trigger] self.pools@[a].wf(
                (a + 1) as u64,
            ) by {
                assert(old(self).pools@[a].wf((a + 1) as u64));
            }
            assert(self.pools@ == old(self).pools@.update(
                i as int,
                PoolRecord { state: PoolState::Closed, ..old(self).pools@[i as int] },
            ));
        }
        Ok(())
    }

    /// The first check that `update_pool_state` fails, if any.
    pub open spec fn update_pool_state_error(&self, pool_id: u64, new_state: PoolState) -> Option<
        CrowdfundingError,
    > {
        let current = self.pool(pool_id).state;
        if self.pools_blocked() is Some {
            self.pools_blocked()
        } else if !self.has_pool(pool_id) {
            Some(CrowdfundingError::PoolNotFound)
        } else if current == PoolState::Closed {
            Some(CrowdfundingError::InvalidPoolState)
        } else if (current == PoolState::Completed || current == PoolState::Cancelled) && new_state
            != PoolState::Closed {
            Some(CrowdfundingError::InvalidPoolState)
        } else {
            None
        }
    }

    /// Moves pool `pool_id` to `new_state`. A closed pool stays closed; a
    /// completed or cancelled one can only be closed.
    pub fn update_pool_state(&mut self, pool_id: u64, new_state: PoolState) -> (r: Result<
        (),
        CrowdfundingError,
    >)
        requires
            old(self).wf(),
        ensures
            final(self).wf(),
            error_of(r) == old(self).update_pool_state_error(pool_id, new_state),
            r is Err ==> *final(self) == *old(self),
            r is Ok ==> Self::pool_replaced(
                *old(self),
                *final(self),
                pool_id,
                PoolRecord { state: new_state, ..old(self).pool(pool_id) },
            ),
    {
        self.pools_blocked_check()?;
        if pool_id == 0 || pool_id > self.pools.len() as u64 {
            return Err(CrowdfundingError::PoolNotFound);
        }
        let i = (pool_id - 1) as usize;
        let current = self.pools[i].state;
        if current == PoolState::Closed {
            return Err(CrowdfundingError::InvalidPoolState);
        }
        if (current == PoolState::Completed || current == PoolState::Cancelled) && new_state
            != PoolState::Closed {
            return Err(CrowdfundingError::InvalidPoolState);
        }
        self.pools[i].state = new_state;
        proof {
            assert forall|a: int| 0 <= a < self.pools@.len() implies #[trigger] self.pools@[a].wf(
                (a + 1) as u64,
            ) by {
                assert(old(self).pools@[a].wf((a + 1) as u64));
            }
            assert(self.pools@ == old(self).pools@.update(
                i as int,
                PoolRecord { state: new_state, ..old(self).pools@[i as int] },
            ));
        }
        Ok(())
    }

    /// The configuration of pool `pool_id`, if it exists.
    pub fn get_pool(&self, pool_id: u64) -> (r: Option<&PoolConfig>)
        ensures
            !self.has_pool(pool_id) ==> r is None,
            self.has_pool(pool_id) ==> r == Some(&self.pool(pool_id).config),
    {
        if pool_id == 0 || pool_id > self.pools.len() as u64 {
            None
        } else {
            Some(&self.pools[(pool_id - 1) as usize].config)
        }
    }

    /// The descriptive data of pool `pool_id`, if it exists.
    pub fn get_pool_metadata(&self, pool_id: u64) -> (r: Option<&PoolMetadata>)
        ensures
            !self.has_pool(pool_id) ==> r is None,
            self.has_pool(pool_id) ==> r == Some(&self.pool(pool_id).metadata),
    {
        if pool_id == 0 || pool_id > self.pools.len() as u64 {
            None
        } else {
            Some(&self.pools[(pool_id - 1) as usize].metadata)
        }
    }

    /// The state of pool `pool_id`.
    pub fn get_pool_state(&self, pool_id: u64) -> (r: Result<PoolState, CrowdfundingError>)
        ensures
            !self.has_pool(pool_id) ==> r == Err::<PoolState, CrowdfundingError>(
                CrowdfundingError::PoolNotFound,
            ),
            self.has_pool(pool_id) ==> r == Ok::<PoolState, CrowdfundingError>(
                self.pool(pool_id).state,
            ),
    {
        if pool_id == 0 || pool_id > self.pools.len() as u64 {
            Err(CrowdfundingError::PoolNotFound)
        } else {
            Ok(self.pools[(pool_id - 1) as usize].state)
        }
    }

    /// Whether pool `pool_id` is closed.
    pub fn is_closed(&self, pool_id: u64) -> (r: Result<bool, CrowdfundingError>)
        ensures
            !self.has_pool(pool_id) ==> r == Err::<bool, CrowdfundingError>(
                CrowdfundingError::PoolNotFound,
            ),
            self.has_pool(pool_id) ==> r == Ok::<bool, CrowdfundingError>(
                self.pool(pool_id).state == PoolState::Closed,
            ),
    {
        if pool_id == 0 || pool_id > self.pools.len() as u64 {
            Err(CrowdfundingError::PoolNotFound)
        } else {
            Ok(self.pools[(pool_id - 1) as usize].state == PoolState::Closed)
        }
    }

    /// Seconds left until the deadline of pool `pool_id`; zero once it has
    /// passed.
    pub fn get_pool_remaining_time(&self, pool_id: u64, now: u64) -> (r: Result<
        u64,
        CrowdfundingError,
    >)
        requires
            self.wf(),
        ensures
            !self.has_pool(pool_id) ==> r == Err::<u64, CrowdfundingError>(
                CrowdfundingError::PoolNotFound,
            ),
            self.has_pool(pool_id) ==> ({
                let deadline = self.pool(pool_id).config.created_at
                    + self.pool(pool_id).config.duration;
                r == Ok::<u64, CrowdfundingError>(
                    if deadline > now {
                        (deadline - now) as u64
                    } else {
                        0
                    },
                )
            }),
    {
        if pool_id == 0 || pool_id > self.pools.len() as u64 {
            return Err(CrowdfundingError::PoolNotFound);
        }
        let i = (pool_id - 1) as usize;
        proof {
            assert(self.pools@[i as int].wf((i + 1) as u64));
        }
        let deadline = self.pools[i].config.created_at + self.pools[i].config.duration;
        Ok(deadline.saturating_sub(now))
    }

    /// What `contributor` has in pool `pool_id`.
    pub fn get_pool_contribution(&self, pool_id: u64, contributor: Address) -> (r: Result<
        i128,
        CrowdfundingError,
    >)
        requires
            self.wf(),
        ensures
            !self.has_pool(pool_id) ==> r == Err::<i128, CrowdfundingError>(
                CrowdfundingError::PoolNotFound,
            ),
            self.has_pool(pool_id) ==> r == Ok::<i128, CrowdfundingError>(
                pool_contribution_amount(self.pool(pool_id).contributions@, contributor) as i128,
            ),
    {
        if pool_id == 0 || pool_id > self.pools.len() as u64 {
            return Err(CrowdfundingError::PoolNotFound);
        }
        let i = (pool_id - 1) as usize;
        proof {
            assert(self.pools@[i as int].wf((i + 1) as u64));
        }
        match find_pool_contribution(&self.pools[i].contributions, contributor) {
            Some(k) => Ok(self.pools[i].contributions[k].amount),
            None => Ok(0),
        }
    }

    /// The records of pool `pool_id` from position `offset`, at most `limit`
    /// of them, in the order in which contributors first gave.
    pub fn get_pool_contributions_paginated(&self, pool_id: u64, offset: u32, limit: u32) -> (r:
        Result<Vec<PoolContribution>, CrowdfundingError>)
        ensures
            !self.has_pool(pool_id) ==> r == Err::<Vec<PoolContribution>, CrowdfundingError>(
                CrowdfundingError::PoolNotFound,
            ),
            self.has_pool(pool_id) ==> (r matches Ok(v) && v@ == page(
                self.pool(pool_id).contributions@,
                offset as int,
                limit as int,
            )),
    {
        if pool_id == 0 || pool_id > self.pools.len() as u64 {
            return Err(CrowdfundingError::PoolNotFound);
        }
        let s = &self.pools[(pool_id - 1) as usize].contributions;
        let mut out: Vec<PoolContribution> = Vec::new();
        if offset as usize >= s.len() {
            proof {
                assert(out@ == page(s@, offset as int, limit as int));
            }
            return Ok(out);
        }
        let end: usize = if limit as usize > s.len() - offset as usize {
            s.len()
        } else {
            offset as usize + limit as usize
        };
        let mut i: usize = offset as usize;
        while i < end
            invariant
                offset <= i <= end <= s@.len(),
                out@ == s@.subrange(offset as int, i as int),
            decreases end - i,
        {
            out.push(s[i]);
            proof {
                assert(s@.subrange(offset as int, i + 1) == s@.subrange(offset as int, i as int).push(
                    s@[i as int],
                ));
            }
            i += 1;
        }
        Ok(out)
    }
}

/// The records of `s` from position `offset`, at most `limit` of them.
pub open spec fn page(s: Seq<PoolContribution>, offset: int, limit: int) -> Seq<PoolContribution> {
    if offset >= s.len() {
        Seq::empty()
    } else if offset + limit > s.len() {
        s.subrange(offset, s.len() as int)
    } else {
        s.subrange(offset, offset + limit)
    }
}

} // verus!
