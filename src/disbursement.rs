use vstd::prelude::*;

use crate::contract::{error_of, CrowdfundingContract};
use crate::errors::CrowdfundingError;
use crate::types::{Address, DisbursementRequest, MultiSigConfig, PoolRecord, Transfer};

verus! {

/// The position of `who` in `s`, if it is there.
fn position_of(s: &Vec<Address>, who: Address) -> (r: Option<usize>)
    ensures
        r is None <==> !s@.contains(who),
        r matches Some(i) ==> i < s@.len() && s@[i as int] == who,
{
    let mut i: usize = 0;
    while i < s.len()
        invariant
            0 <= i <= s@.len(),
            forall|k: int| 0 <= k < i ==> s@[k] != who,
        decreases s@.len() - i,
    {
        if s[i] == who {
            return Some(i);
        }
        i += 1;
    }
    None
}

impl PoolRecord {
    /// Whether `who` is a configured signer of the pool.
    pub open spec fn is_signer(&self, who: Address) -> bool {
        self.multi_sig matches Some(m) && m.signers@.contains(who)
    }

    /// Whether `who` may request and approve releases: the creator or a
    /// signer.
    pub open spec fn may_sign(&self, who: Address) -> bool {
        who == self.creator || self.is_signer(who)
    }

    /// How many approvals a release needs: the configured threshold, or one
    /// without a configuration.
    pub open spec fn required_approvals(&self) -> int {
        match self.multi_sig {
            Some(m) => m.required_signatures as int,
            None => 1,
        }
    }

    /// Whether `who` may sign, computed.
    fn check_signer(&self, who: Address) -> (r: bool)
        ensures
            r == self.may_sign(who),
    {
        if who == self.creator {
            return true;
        }
        match &self.multi_sig {
            Some(m) => position_of(&m.signers, who).is_some(),
            None => false,
        }
    }
}

impl CrowdfundingContract {
    /// Whether pool `pool_id` has a request with id `id`.
    pub open spec fn has_disbursement(&self, pool_id: u64, id: u64) -> bool {
        self.has_pool(pool_id) && 1 <= id <= self.pool(pool_id).disbursements@.len()
    }

    /// Request `id` of pool `pool_id`.
    pub open spec fn disbursement(&self, pool_id: u64, id: u64) -> DisbursementRequest {
        self.pool(pool_id).disbursements@[id - 1]
    }

    /// Every pool but `pool_id` is as in `old`, and the new pool is sound.
    proof fn lemma_pool_frame(old: CrowdfundingContract, new: CrowdfundingContract, pool_id: u64)
        requires
            old.wf(),
            old.has_pool(pool_id),
            new == (CrowdfundingContract { pools: new.pools, ..old }),
            new.pools@.len() == old.pools@.len(),
            forall|a: int| 0 <= a < old.pools@.len() && a != pool_id - 1 ==> new.pools@[a] == old.pools@[a],
            new.pool(pool_id).wf(pool_id),
        ensures
            new.wf(),
    {
        assert forall|a: int| 0 <= a < new.pools@.len() implies #[trigger] new.pools@[a].wf(
            (a + 1) as u64,
        ) by {
            if a != pool_id - 1 {
                assert(old.pools@[a].wf((a + 1) as u64));
            }
        }
    }

    /// The first check that `request_disbursement` fails, if any.
    pub open spec fn request_disbursement_error(
        &self,
        pool_id: u64,
        amount: i128,
        requester: Address,
    ) -> Option<CrowdfundingError> {
        if self.pools_blocked() is Some {
            self.pools_blocked()
        } else if !self.has_pool(pool_id) {
            Some(CrowdfundingError::PoolNotFound)
        } else if !self.pool(pool_id).may_sign(requester) {
            Some(CrowdfundingError::NotAuthorizedSigner)
        } else if amount <= 0 {
            Some(CrowdfundingError::InvalidAmount)
        } else if self.pool(pool_id).disbursements@.len() + 1 >= u64::MAX {
            Some(CrowdfundingError::InvalidPoolState)
        } else {
            None
        }
    }

    /// Files a request to pay `amount` of pool `pool_id` to `recipient`, on
    /// behalf of `requester`; returns its id, the next in the pool's sequence
    /// from one.
    pub fn request_disbursement(
        &mut self,
        pool_id: u64,
        amount: i128,
        recipient: Address,
        requester: Address,
        now: u64,
    ) -> (r: Result<u64, CrowdfundingError>)
        requires
            old(self).wf(),
        ensures
            final(self).wf(),
            error_of(r) == old(self).request_disbursement_error(pool_id, amount, requester),
            r is Err ==> *final(self) == *old(self),
            r is Ok ==> ({
                let o = old(self).pool(pool_id);
                let n = final(self).pool(pool_id);
                let id = (o.disbursements@.len() + 1) as u64;
                &&& r == Ok::<u64, CrowdfundingError>(id)
                &&& Self::pool_replaced(*old(self), *final(self), pool_id, n)
                &&& n == (PoolRecord { disbursements: n.disbursements, ..o })
                &&& n.disbursements@.drop_last() == o.disbursements@
                &&& n.disbursements@.len() == id
                &&& n.disbursements@.last() == (DisbursementRequest {
                    approvals: n.disbursements@.last().approvals,
                    id,
                    pool_id,
                    amount,
                    recipient,
                    created_at: now,
                    executed: false,
                })
                &&& n.disbursements@.last().approvals@.len() == 0
            }),
    {
        self.pools_blocked_check()?;
        if pool_id == 0 || pool_id > self.pools.len() as u64 {
            return Err(CrowdfundingError::PoolNotFound);
        }
        let i = (pool_id - 1) as usize;
        proof {
            assert(self.pools@[i as int].wf((i + 1) as u64));
        }
        if !self.pools[i].check_signer(requester) {
            return Err(CrowdfundingError::NotAuthorizedSigner);
        }
        if amount <= 0 {
            return Err(CrowdfundingError::InvalidAmount);
        }
        if self.pools[i].disbursements.len() as u64 >= u64::MAX - 1 {
            return Err(CrowdfundingError::InvalidPoolState);
        }
        let id = self.pools[i].disbursements.len() as u64 + 1;
        let request = DisbursementRequest {
            id,
            pool_id,
            amount,
            recipient,
            created_at: now,
            approvals: Vec::new(),
            executed: false,
        };
        self.pools[i].disbursements.push(request);
        proof {
            let n = self.pools@[i as int];
            let o = old(self).pools@[i as int];
            assert(n.disbursements@.drop_last() == o.disbursements@);
            assert forall|a: int| 0 <= a < n.disbursements@.len() implies (#[trigger] n.disbursements@[a]).wf(
                pool_id,
                (a + 1) as u64,
            ) by {
                if a < o.disbursements@.len() {
                    assert(o.disbursements@[a].wf(pool_id, (a + 1) as u64));
                }
            }
            Self::lemma_pool_frame(*old(self), *self, pool_id);
        }
        Ok(id)
    }

    /// The first check that `approve_disbursement` fails, if any.
    pub open spec fn approve_error(&self, pool_id: u64, id: u64, signer: Address) -> Option<
        CrowdfundingError,
    > {
        if self.pools_blocked() is Some {
            self.pools_blocked()
        } else if !self.has_pool(pool_id) {
            Some(CrowdfundingError::PoolNotFound)
        } else if !self.has_disbursement(pool_id, id) {
            Some(CrowdfundingError::DisbursementNotFound)
        } else if !self.pool(pool_id).may_sign(signer) {
            Some(CrowdfundingError::NotAuthorizedSigner)
        } else if self.disbursement(pool_id, id).executed {
            Some(CrowdfundingError::DisbursementAlreadyExecuted)
        } else if self.disbursement(pool_id, id).approvals@.contains(signer) {
            Some(CrowdfundingError::AlreadyApproved)
        } else {
            None
        }
    }

    /// Adds `signer`'s approval to request `id` of pool `pool_id`.
    pub fn approve_disbursement(&mut self, pool_id: u64, id: u64, signer: Address) -> (r: Result<
        (),
        CrowdfundingError,
    >)
        requires
            old(self).wf(),
        ensures
            final(self).wf(),
            error_of(r) == old(self).approve_error(pool_id, id, signer),
            r is Err ==> *final(self) == *old(self),
            r is Ok ==> ({
                let o = old(self).pool(pool_id);
                let n = final(self).pool(pool_id);
                let d = n.disbursements@[id - 1];
                &&& Self::pool_replaced(*old(self), *final(self), pool_id, n)
                &&& n == (PoolRecord { disbursements: n.disbursements, ..o })
                &&& n.disbursements@ == o.disbursements@.update(id - 1, d)
                &&& d == (DisbursementRequest { approvals: d.approvals, ..o.disbursements@[id - 1] })
                &&& d.approvals@ == o.disbursements@[id - 1].approvals@.push(signer)
            }),
    {
        self.pools_blocked_check()?;
        if pool_id == 0 || pool_id > self.pools.len() as u64 {
            return Err(CrowdfundingError::PoolNotFound);
        }
        let i = (pool_id - 1) as usize;
        proof {
            assert(self.pools@[i as int].wf((i + 1) as u64));
        }
        if id == 0 || id > self.pools[i].disbursements.len() as u64 {
            return Err(CrowdfundingError::DisbursementNotFound);
        }
        let k = (id - 1) as usize;
        if !self.pools[i].check_signer(signer) {
            return Err(CrowdfundingError::NotAuthorizedSigner);
        }
        if self.pools[i].disbursements[k].executed {
            return Err(CrowdfundingError::DisbursementAlreadyExecuted);
        }
        if position_of(&self.pools[i].disbursements[k].approvals, signer).is_some() {
            return Err(CrowdfundingError::AlreadyApproved);
        }
        self.pools[i].disbursements[k].approvals.push(signer);
        proof {
            let n = self.pools@[i as int];
            let o = old(self).pools@[i as int];
            assert(o.disbursements@[k as int].wf(pool_id, (k + 1) as u64));
            assert forall|a: int| 0 <= a < n.disbursements@.len() implies (#[trigger] n.disbursements@[a]).wf(
                pool_id,
                (a + 1) as u64,
            ) by {
                assert(o.disbursements@[a].wf(pool_id, (a + 1) as u64));
            }
            Self::lemma_pool_frame(*old(self), *self, pool_id);
        }
        Ok(())
    }

    /// The first check that `execute_disbursement` fails, if any.
    pub open spec fn execute_error(&self, pool_id: u64, id: u64) -> Option<CrowdfundingError> {
        if self.pools_blocked() is Some {
            self.pools_blocked()
        } else if !self.has_pool(pool_id) {
            Some(CrowdfundingError::PoolNotFound)
        } else if !self.has_disbursement(pool_id, id) {
            Some(CrowdfundingError::DisbursementNotFound)
        } else if self.disbursement(pool_id, id).executed {
            Some(CrowdfundingError::DisbursementAlreadyExecuted)
        } else if self.disbursement(pool_id, id).approvals@.len()
            < self.pool(pool_id).required_approvals() {
            Some(CrowdfundingError::InsufficientApprovals)
        } else if self.token is None {
            Some(CrowdfundingError::NotInitialized)
        } else {
            None
        }
    }

    /// What a successful execution does: request `id` of pool `pool_id` is
    /// marked executed, and nothing else changes.
    pub open spec fn execute_effect(
        old: CrowdfundingContract,
        new: CrowdfundingContract,
        pool_id: u64,
        id: u64,
    ) -> bool {
        let o = old.pool(pool_id);
        let n = new.pool(pool_id);
        &&& Self::pool_replaced(old, new, pool_id, n)
        &&& n == (PoolRecord { disbursements: n.disbursements, ..o })
        &&& n.disbursements@ == o.disbursements@.update(
            id - 1,
            DisbursementRequest { executed: true, ..o.disbursements@[id - 1] },
        )
    }

    /// Marks request `id` of pool `pool_id` executed, once it has enough
    /// approvals, and returns the transfer that pays its recipient in the
    /// ledger's token. A request is executed once.
    pub fn execute_disbursement(&mut self, pool_id: u64, id: u64) -> (r: Result<
        Transfer,
        CrowdfundingError,
    >)
        requires
            old(self).wf(),
        ensures
            final(self).wf(),
            error_of(r) == old(self).execute_error(pool_id, id),
            r is Err ==> *final(self) == *old(self),
            r is Ok ==> Self::execute_effect(*old(self), *final(self), pool_id, id) && r == Ok::<
                Transfer,
                CrowdfundingError,
            >(
                Transfer {
                    asset: old(self).token.unwrap(),
                    from: old(self).contract_address,
                    to: old(self).disbursement(pool_id, id).recipient,
                    amount: old(self).disbursement(pool_id, id).amount,
                },
            ),
    {
        self.pools_blocked_check()?;
        if pool_id == 0 || pool_id > self.pools.len() as u64 {
            return Err(CrowdfundingError::PoolNotFound);
        }
        let i = (pool_id - 1) as usize;
        proof {
            assert(self.pools@[i as int].wf((i + 1) as u64));
        }
        if id == 0 || id > self.pools[i].disbursements.len() as u64 {
            return Err(CrowdfundingError::DisbursementNotFound);
        }
        let k = (id - 1) as usize;
        if self.pools[i].disbursements[k].executed {
            return Err(CrowdfundingError::DisbursementAlreadyExecuted);
        }
        let required: u32 = match &self.pools[i].multi_sig {
            Some(m) => m.required_signatures,
            None => 1,
        };
        if self.pools[i].disbursements[k].approvals.len() < required as usize {
            return Err(CrowdfundingError::InsufficientApprovals);
        }
        let token = match self.token {
            Some(t) => t,
            None => return Err(CrowdfundingError::NotInitialized),
        };
        self.pools[i].disbursements[k].executed = true;
        proof {
            let n = self.pools@[i as int];
            let o = old(self).pools@[i as int];
            assert(n.disbursements@ == o.disbursements@.update(
                k as int,
                DisbursementRequest { executed: true, ..o.disbursements@[k as int] },
            ));
            assert forall|a: int| 0 <= a < n.disbursements@.len() implies (#[trigger] n.disbursements@[a]).wf(
                pool_id,
                (a + 1) as u64,
            ) by {
                assert(o.disbursements@[a].wf(pool_id, (a + 1) as u64));
            }
            Self::lemma_pool_frame(*old(self), *self, pool_id);
        }
        let d = &self.pools[i].disbursements[k];
        Ok(Transfer { asset: token, from: self.contract_address, to: d.recipient, amount: d.amount })
    }

    /// Request `id` of pool `pool_id`, if it exists.
    pub fn get_disbursement(&self, pool_id: u64, id: u64) -> (r: Option<&DisbursementRequest>)
        ensures
            !self.has_disbursement(pool_id, id) ==> r is None,
            self.has_disbursement(pool_id, id) ==> r == Some(&self.disbursement(pool_id, id)),
    {
        if pool_id == 0 || pool_id > self.pools.len() as u64 {
            return None;
        }
        let i = (pool_id - 1) as usize;
        if id == 0 || id > self.pools[i].disbursements.len() as u64 {
            return None;
        }
        Some(&self.pools[i].disbursements[(id - 1) as usize])
    }

    /// The first check that `add_signer` fails, if any.
    pub open spec fn add_signer_error(&self, pool_id: u64, new_signer: Address, caller: Address) -> Option<
        CrowdfundingError,
    > {
        if self.pools_blocked() is Some {
            self.pools_blocked()
        } else if !self.has_pool(pool_id) {
            Some(CrowdfundingError::PoolNotFound)
        } else if caller != self.pool(pool_id).creator {
            Some(CrowdfundingError::Unauthorized)
        } else if self.pool(pool_id).is_signer(new_signer) {
            Some(CrowdfundingError::SignerAlreadyExists)
        } else {
            None
        }
    }

    /// Adds `new_signer` to the signers of pool `pool_id`, on behalf of its
    /// creator. A pool without a configuration gets one that needs a single
    /// approval.
    pub fn add_signer(&mut self, pool_id: u64, new_signer: Address, caller: Address) -> (r: Result<
        (),
        CrowdfundingError,
    >)
        requires
            old(self).wf(),
        ensures
            final(self).wf(),
            error_of(r) == old(self).add_signer_error(pool_id, new_signer, caller),
            r is Err ==> *final(self) == *old(self),
            r is Ok ==> ({
                let o = old(self).pool(pool_id);
                let n = final(self).pool(pool_id);
                &&& Self::pool_replaced(*old(self), *final(self), pool_id, n)
                &&& n == (PoolRecord { multi_sig: n.multi_sig, ..o })
                &&& n.multi_sig matches Some(m) && match o.multi_sig {
                    Some(om) => m.required_signatures == om.required_signatures && m.signers@
                        == om.signers@.push(new_signer),
                    None => m.required_signatures == 1 && m.signers@ == seq![new_signer],
                }
            }),
    {
        self.pools_blocked_check()?;
        if pool_id == 0 || pool_id > self.pools.len() as u64 {
            return Err(CrowdfundingError::PoolNotFound);
        }
        let i = (pool_id - 1) as usize;
        proof {
            assert(self.pools@[i as int].wf((i + 1) as u64));
        }
        if caller != self.pools[i].creator {
            return Err(CrowdfundingError::Unauthorized);
        }
        let present = match &self.pools[i].multi_sig {
            Some(m) => position_of(&m.signers, new_signer).is_some(),
            None => false,
        };
        if present {
            return Err(CrowdfundingError::SignerAlreadyExists);
        }
        let rec = &mut self.pools[i];
        match &mut rec.multi_sig {
            Some(m) => {
                m.signers.push(new_signer);
            },
            None => {
                let mut signers: Vec<Address> = Vec::new();
                signers.push(new_signer);
                rec.multi_sig = Some(MultiSigConfig { required_signatures: 1, signers });
            },
        }
        proof {
            let n = self.pools@[i as int];
            let o = old(self).pools@[i as int];
            assert forall|a: int| 0 <= a < n.disbursements@.len() implies (#[trigger] n.disbursements@[a]).wf(
                pool_id,
                (a + 1) as u64,
            ) by {
                assert(o.disbursements@[a].wf(pool_id, (a + 1) as u64));
            }
            if let Some(m) = n.multi_sig {
                if let Some(om) = o.multi_sig {
                    assert(m.signers@.no_duplicates()) by {
                        assert forall|a: int, b: int|
                            0 <= a < m.signers@.len() && 0 <= b < m.signers@.len() && a != b
                                implies m.signers@[a] != m.signers@[b] by {
                            if a < om.signers@.len() && b < om.signers@.len() {
                            } else if a < om.signers@.len() {
                                assert(om.signers@[a] != new_signer);
                            } else {
                                assert(om.signers@[b] != new_signer);
                            }
                        }
                    }
                } else {
                    assert(m.signers@ == seq![new_signer]);
                }
            }
            Self::lemma_pool_frame(*old(self), *self, pool_id);
        }
        Ok(())
    }

    /// The first check that `remove_signer` fails, if any.
    pub open spec fn remove_signer_error(&self, pool_id: u64, signer: Address, caller: Address) -> Option<
        CrowdfundingError,
    > {
        if self.pools_blocked() is Some {
            self.pools_blocked()
        } else if !self.has_pool(pool_id) {
            Some(CrowdfundingError::PoolNotFound)
        } else if caller != self.pool(pool_id).creator {
            Some(CrowdfundingError::Unauthorized)
        } else if !self.pool(pool_id).is_signer(signer) {
            Some(CrowdfundingError::SignerNotFound)
        } else if self.pool(pool_id).multi_sig.unwrap().signers@.len() == 1 {
            Some(CrowdfundingError::CannotRemoveLastSigner)
        } else {
            None
        }
    }

    /// Removes `signer` from the signers of pool `pool_id`, on behalf of its
    /// creator; the threshold comes down to the number of signers left where
    /// it would exceed it. The last signer cannot be removed.
    pub fn remove_signer(&mut self, pool_id: u64, signer: Address, caller: Address) -> (r: Result<
        (),
        CrowdfundingError,
    >)
        requires
            old(self).wf(),
        ensures
            final(self).wf(),
            error_of(r) == old(self).remove_signer_error(pool_id, signer, caller),
            r is Err ==> *final(self) == *old(self),
            r is Ok ==> ({
                let o = old(self).pool(pool_id);
                let n = final(self).pool(pool_id);
                let om = o.multi_sig.unwrap();
                let k = om.signers@.index_of(signer);
                &&& Self::pool_replaced(*old(self), *final(self), pool_id, n)
                &&& n == (PoolRecord { multi_sig: n.multi_sig, ..o })
                &&& n.multi_sig matches Some(m) && m.signers@ == om.signers@.remove(k)
                    && m.required_signatures == if om.required_signatures > m.signers@.len() {
                    m.signers@.len() as u32
                } else {
                    om.required_signatures
                }
            }),
    {
        self.pools_blocked_check()?;
        if pool_id == 0 || pool_id > self.pools.len() as u64 {
            return Err(CrowdfundingError::PoolNotFound);
        }
        let i = (pool_id - 1) as usize;
        proof {
            assert(self.pools@[i as int].wf((i + 1) as u64));
        }
        if caller != self.pools[i].creator {
            return Err(CrowdfundingError::Unauthorized);
        }
        let k = match &self.pools[i].multi_sig {
            Some(m) => match position_of(&m.signers, signer) {
                Some(k) => {
                    if m.signers.len() == 1 {
                        return Err(CrowdfundingError::CannotRemoveLastSigner);
                    }
                    k
                },
                None => return Err(CrowdfundingError::SignerNotFound),
            },
            None => return Err(CrowdfundingError::SignerNotFound),
        };
        let rec = &mut self.pools[i];
        match &mut rec.multi_sig {
            Some(m) => {
                proof {
                    m.signers@.index_of_first_ensures(signer);
                    assert(m.signers@.index_of(signer) == k as int) by {
                        let j = m.signers@.index_of(signer);
                        assert(m.signers@[j] == signer);
                    }
                }
                let ghost before = m.signers@;
                m.signers.remove(k);
                if m.required_signatures as usize > m.signers.len() {
                    m.required_signatures = m.signers.len() as u32;
                }
                proof {
                    assert(m.signers@.no_duplicates()) by {
                        assert forall|a: int, b: int|
                            0 <= a < m.signers@.len() && 0 <= b < m.signers@.len() && a != b
                                implies m.signers@[a] != m.signers@[b] by {
                            let a2 = if a < k { a } else { a + 1 };
                            let b2 = if b < k { b } else { b + 1 };
                            assert(m.signers@[a] == before[a2]);
                            assert(m.signers@[b] == before[b2]);
                        }
                    }
                }
            },
            None => {},
        }
        proof {
            let n = self.pools@[i as int];
            let o = old(self).pools@[i as int];
            assert forall|a: int| 0 <= a < n.disbursements@.len() implies (#[trigger] n.disbursements@[a]).wf(
                pool_id,
                (a + 1) as u64,
            ) by {
                assert(o.disbursements@[a].wf(pool_id, (a + 1) as u64));
            }
            Self::lemma_pool_frame(*old(self), *self, pool_id);
        }
        Ok(())
    }
}

} // verus!
