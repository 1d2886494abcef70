use vstd::prelude::*;

use crate::contract::{error_of, CrowdfundingContract};
use crate::errors::CrowdfundingError;
use crate::types::{
    Address, CampaignDetails, CampaignLifecycleStatus, CampaignRecord, Contribution, Transfer,
};

verus! {

/// Longest accepted campaign title, in bytes.
pub const MAX_TITLE_LENGTH: usize = 200;

/// How far from now a deadline may be pushed: ninety days, in seconds.
pub const MAX_CAMPAIGN_DURATION: u64 = 7_776_000;

/// Whether `who` has a contribution record in `s`.
pub open spec fn has_contribution(s: Seq<Contribution>, who: Address) -> bool {
    exists|i: int| 0 <= i < s.len() && s[i].contributor == who
}

/// The position of `who`'s contribution record in `s`.
pub open spec fn contribution_index(s: Seq<Contribution>, who: Address) -> int {
    choose|i: int| 0 <= i < s.len() && s[i].contributor == who
}

/// What `who` has given, as recorded in `s`; zero without a record.
pub open spec fn contribution_amount(s: Seq<Contribution>, who: Address) -> int {
    if has_contribution(s, who) {
        s[contribution_index(s, who)].amount as int
    } else {
        0
    }
}

/// The records `s` after `who` gave `amount` more.
pub open spec fn contributions_after(s: Seq<Contribution>, who: Address, amount: int) -> Seq<
    Contribution,
> {
    if has_contribution(s, who) {
        let i = contribution_index(s, who);
        s.update(i, Contribution { contributor: who, amount: (s[i].amount + amount) as i128 })
    } else {
        s.push(Contribution { contributor: who, amount: amount as i128 })
    }
}

/// Donors are listed once each and no amount is negative.
pub open spec fn contributions_wf(s: Seq<Contribution>) -> bool {
    &&& forall|i: int, j: int|
        0 <= i < s.len() && 0 <= j < s.len() && i != j ==> s[i].contributor != s[j].contributor
    &&& forall|i: int| 0 <= i < s.len() ==> #[trigger] s[i].amount >= 0
}

/// Giving more, or zeroing one record, keeps the records sound.
proof fn lemma_contributions_wf(s: Seq<Contribution>, who: Address, amount: int)
    requires
        contributions_wf(s),
        amount >= 0,
        has_contribution(s, who) ==> s[contribution_index(s, who)].amount + amount <= i128::MAX,
        amount <= i128::MAX,
    ensures
        contributions_wf(contributions_after(s, who, amount)),
        has_contribution(s, who) ==> contributions_wf(
            s.update(contribution_index(s, who), Contribution { contributor: who, amount: 0 }),
        ),
{
    if has_contribution(s, who) {
        let k = contribution_index(s, who);
        assert(s[k].contributor == who);
    }
}

/// The position of `who`'s record, for records that name each donor once.
fn find_contribution(s: &Vec<Contribution>, who: Address) -> (r: Option<usize>)
    requires
        contributions_wf(s@),
    ensures
        r is None <==> !has_contribution(s@, who),
        r matches Some(i) ==> i == contribution_index(s@, who) && i < s@.len()
            && s@[i as int].contributor == who,
{
    let mut i: usize = 0;
    while i < s.len()
        invariant
            0 <= i <= s@.len(),
            forall|k: int| 0 <= k < i ==> s@[k].contributor != who,
            contributions_wf(s@),
        decreases s@.len() - i,
    {
        if s[i].contributor == who {
            assert(has_contribution(s@, who));
            assert(s@[contribution_index(s@, who)].contributor == who);
            return Some(i);
        }
        i += 1;
    }
    None
}

impl CrowdfundingContract {
    /// Whether a campaign with id `id` exists.
    pub open spec fn has_campaign(&self, id: u64) -> bool {
        exists|i: int| 0 <= i < self.campaigns@.len() && self.campaigns@[i].details.id == id
    }

    /// The position of the campaign with id `id`.
    pub open spec fn campaign_index(&self, id: u64) -> int {
        choose|i: int| 0 <= i < self.campaigns@.len() && self.campaigns@[i].details.id == id
    }

    /// The campaign with id `id`.
    pub open spec fn campaign(&self, id: u64) -> CampaignRecord {
        self.campaigns@[self.campaign_index(id)]
    }

    /// `new` is `old` with the campaign at position `i` replaced by `rec`.
    pub open spec fn campaign_replaced(
        old: CrowdfundingContract,
        new: CrowdfundingContract,
        i: int,
        rec: CampaignRecord,
    ) -> bool {
        &&& new == (CrowdfundingContract { campaigns: new.campaigns, ..old })
        &&& new.campaigns@ == old.campaigns@.update(i, rec)
    }

    /// The position of the campaign with id `id`, if there is one.
    pub fn find_campaign(&self, id: u64) -> (r: Option<usize>)
        requires
            self.wf(),
        ensures
            r is None <==> !self.has_campaign(id),
            r matches Some(i) ==> i == self.campaign_index(id) && i < self.campaigns@.len(),
    {
        let mut i: usize = 0;
        while i < self.campaigns.len()
            invariant
                self.wf(),
                0 <= i <= self.campaigns@.len(),
                forall|k: int| 0 <= k < i ==> self.campaigns@[k].details.id != id,
            decreases self.campaigns@.len() - i,
        {
            if self.campaigns[i].details.id == id {
                assert(self.has_campaign(id));
                return Some(i);
            }
            i += 1;
        }
        None
    }

    /// The first check that `create_campaign` fails, if any.
    pub open spec fn create_campaign_error(
        &self,
        id: u64,
        title: Seq<u8>,
        goal: i128,
        deadline: u64,
        now: u64,
    ) -> Option<CrowdfundingError> {
        if self.campaigns_blocked() is Some {
            self.campaigns_blocked()
        } else if title.len() == 0 || title.len() > MAX_TITLE_LENGTH {
            Some(CrowdfundingError::InvalidTitle)
        } else if goal <= 0 {
            Some(CrowdfundingError::InvalidGoal)
        } else if deadline <= now {
            Some(CrowdfundingError::InvalidDeadline)
        } else if self.token is None {
            Some(CrowdfundingError::NotInitialized)
        } else if self.has_campaign(id) {
            Some(CrowdfundingError::CampaignAlreadyExists)
        } else if self.platform_fees + self.creation_fee > i128::MAX {
            Some(CrowdfundingError::InvalidFee)
        } else {
            None
        }
    }

    /// Opens a campaign funded in the ledger's token. Where a creation fee
    /// is set, it is booked and the transfer that collects it returned.
    pub fn create_campaign(
        &mut self,
        id: u64,
        title: Vec<u8>,
        creator: Address,
        goal: i128,
        deadline: u64,
        now: u64,
    ) -> (r: Result<Option<Transfer>, CrowdfundingError>)
        requires
            old(self).wf(),
        ensures
            final(self).wf(),
            error_of(r) == old(self).create_campaign_error(id, title@, goal, deadline, now),
            r is Err ==> *final(self) == *old(self),
            r is Ok ==> {
                &&& *final(self) == (CrowdfundingContract {
                    campaigns: final(self).campaigns,
                    platform_fees: (old(self).platform_fees + old(self).creation_fee) as i128,
                    ..*old(self)
                })
                &&& final(self).campaigns@.len() == old(self).campaigns@.len() + 1
                &&& final(self).campaigns@.drop_last() == old(self).campaigns@
                &&& final(self).campaigns@.last().details == (CampaignDetails {
                    id,
                    title,
                    creator,
                    goal,
                    deadline,
                    total_raised: 0,
                    token_address: old(self).token.unwrap(),
                })
                &&& !final(self).campaigns@.last().cancelled
                &&& !final(self).campaigns@.last().claimed
                &&& final(self).campaigns@.last().max_donation == 0
                &&& final(self).campaigns@.last().top_contributor is None
                &&& final(self).campaigns@.last().contributions@.len() == 0
                &&& r == Ok::<Option<Transfer>, CrowdfundingError>(
                    if old(self).creation_fee > 0 {
                        Some(
                            Transfer {
                                asset: old(self).token.unwrap(),
                                from: creator,
                                to: old(self).contract_address,
                                amount: old(self).creation_fee,
                            },
                        )
                    } else {
                        None
                    },
                )
            },
    {
        self.campaigns_blocked_check()?;
        if title.len() == 0 || title.len() > MAX_TITLE_LENGTH {
            return Err(CrowdfundingError::InvalidTitle);
        }
        if goal <= 0 {
            return Err(CrowdfundingError::InvalidGoal);
        }
        if deadline <= now {
            return Err(CrowdfundingError::InvalidDeadline);
        }
        let token = match self.token {
            Some(t) => t,
            None => return Err(CrowdfundingError::NotInitialized),
        };
        if self.find_campaign(id).is_some() {
            return Err(CrowdfundingError::CampaignAlreadyExists);
        }
        let fees = match self.platform_fees.checked_add(self.creation_fee) {
            Some(f) => f,
            None => return Err(CrowdfundingError::InvalidFee),
        };
        let fee = self.creation_fee;
        let record = CampaignRecord {
            details: CampaignDetails {
                id,
                title,
                creator,
                goal,
                deadline,
                total_raised: 0,
                token_address: token,
            },
            cancelled: false,
            claimed: false,
            max_donation: 0,
            top_contributor: None,
            last_donation_at: 0,
            contributions: Vec::new(),
        };
        self.campaigns.push(record);
        self.platform_fees = fees;
        proof {
            assert(self.campaigns@.drop_last() == old(self).campaigns@);
            assert forall|i: int, j: int|
                0 <= i < self.campaigns@.len() && 0 <= j < self.campaigns@.len() && i != j
                    implies self.campaigns@[i].details.id != self.campaigns@[j].details.id by {
                if i == self.campaigns@.len() - 1 {
                    assert(old(self).campaigns@[j].details.id != id);
                } else if j == self.campaigns@.len() - 1 {
                    assert(old(self).campaigns@[i].details.id != id);
                }
            }
            assert forall|i: int| 0 <= i < self.campaigns@.len() implies #[trigger] self.campaigns@[i].wf() by {
                if i < old(self).campaigns@.len() {
                    assert(old(self).campaigns@[i].wf());
                }
            }
        }
        if fee > 0 {
            Ok(Some(Transfer { asset: token, from: creator, to: self.contract_address, amount: fee }))
        } else {
            Ok(None)
        }
    }

    /// The first check that `donate` fails, if any.
    pub open spec fn donate_error(
        &self,
        id: u64,
        donor: Address,
        asset: Address,
        amount: i128,
        now: u64,
    ) -> Option<CrowdfundingError> {
        let c = self.campaign(id);
        if self.campaigns_blocked() is Some {
            self.campaigns_blocked()
        } else if self.has_campaign(id) && c.cancelled {
            Some(CrowdfundingError::CampaignCancelled)
        } else if amount <= 0 {
            Some(CrowdfundingError::InvalidDonationAmount)
        } else if !self.has_campaign(id) {
            Some(CrowdfundingError::CampaignNotFound)
        } else if now >= c.details.deadline {
            Some(CrowdfundingError::CampaignExpired)
        } else if c.details.total_raised >= c.details.goal {
            Some(CrowdfundingError::CampaignAlreadyFunded)
        } else if asset != c.details.token_address {
            Some(CrowdfundingError::TokenTransferFailed)
        } else if c.details.total_raised + amount > i128::MAX || contribution_amount(
            c.contributions@,
            donor,
        ) + amount > i128::MAX || self.global_raised + amount > i128::MAX {
            Some(CrowdfundingError::InvalidDonationAmount)
        } else {
            None
        }
    }

    /// Books a donation of `amount` of `asset` by `donor` to campaign `id`
    /// and returns the transfer that brings the funds in.
    pub fn donate(&mut self, id: u64, donor: Address, asset: Address, amount: i128, now: u64) -> (r:
        Result<Transfer, CrowdfundingError>)
        requires
            old(self).wf(),
        ensures
            final(self).wf(),
            error_of(r) == old(self).donate_error(id, donor, asset, amount, now),
            r is Err ==> *final(self) == *old(self),
            r is Ok ==> ({
                let i = old(self).campaign_index(id);
                let o = old(self).campaigns@[i];
                let n = final(self).campaigns@[i];
                &&& final(self).campaigns@ == old(self).campaigns@.update(i, n)
                &&& *final(self) == (CrowdfundingContract {
                    campaigns: final(self).campaigns,
                    global_raised: (old(self).global_raised + amount) as i128,
                    ..*old(self)
                })
                &&& n == (CampaignRecord {
                    details: CampaignDetails {
                        total_raised: (o.details.total_raised + amount) as i128,
                        ..o.details
                    },
                    max_donation: if amount > o.max_donation {
                        amount
                    } else {
                        o.max_donation
                    },
                    top_contributor: if amount > o.max_donation {
                        Some(donor)
                    } else {
                        o.top_contributor
                    },
                    last_donation_at: now,
                    contributions: n.contributions,
                    ..o
                })
                &&& n.contributions@ == contributions_after(o.contributions@, donor, amount as int)
                &&& r == Ok::<Transfer, CrowdfundingError>(
                    Transfer { asset, from: donor, to: old(self).contract_address, amount },
                )
            }),
    {
        self.campaigns_blocked_check()?;
        let found = self.find_campaign(id);
        if let Some(i) = found {
            if self.campaigns[i].cancelled {
                return Err(CrowdfundingError::CampaignCancelled);
            }
        }
        if amount <= 0 {
            return Err(CrowdfundingError::InvalidDonationAmount);
        }
        let i = match found {
            Some(i) => i,
            None => return Err(CrowdfundingError::CampaignNotFound),
        };
        if now >= self.campaigns[i].details.deadline {
            return Err(CrowdfundingError::CampaignExpired);
        }
        if self.campaigns[i].details.total_raised >= self.campaigns[i].details.goal {
            return Err(CrowdfundingError::CampaignAlreadyFunded);
        }
        if asset != self.campaigns[i].details.token_address {
            return Err(CrowdfundingError::TokenTransferFailed);
        }
        let raised = match self.campaigns[i].details.total_raised.checked_add(amount) {
            Some(v) => v,
            None => return Err(CrowdfundingError::InvalidDonationAmount),
        };
        let global = match self.global_raised.checked_add(amount) {
            Some(v) => v,
            None => return Err(CrowdfundingError::InvalidDonationAmount),
        };
        proof {
            assert(self.campaigns@[i as int].wf());
        }
        let k = find_contribution(&self.campaigns[i].contributions, donor);
        let given = match k {
            Some(k) => match self.campaigns[i].contributions[k].amount.checked_add(amount) {
                Some(v) => v,
                None => return Err(CrowdfundingError::InvalidDonationAmount),
            },
            None => amount,
        };
        proof {
            lemma_contributions_wf(self.campaigns@[i as int].contributions@, donor, amount as int);
        }
        self.global_raised = global;
        let rec = &mut self.campaigns[i];
        rec.details.total_raised = raised;
        if amount > rec.max_donation {
            rec.max_donation = amount;
            rec.top_contributor = Some(donor);
        }
        rec.last_donation_at = now;
        match k {
            Some(k) => rec.contributions.set(k, Contribution { contributor: donor, amount: given }),
            None => rec.contributions.push(Contribution { contributor: donor, amount: given }),
        }
        proof {
            let j = old(self).campaign_index(id);
            assert(self.campaigns@[j].wf());
            assert forall|a: int| 0 <= a < self.campaigns@.len() implies #[trigger] self.campaigns@[a].wf() by {
                if a != j {
                    assert(old(self).campaigns@[a].wf());
                }
            }
        }
        Ok(Transfer { asset, from: donor, to: self.contract_address, amount })
    }

    /// The first check that `claim_campaign_funds` fails, if any.
    pub open spec fn claim_error(&self, id: u64) -> Option<CrowdfundingError> {
        let c = self.campaign(id);
        if self.campaigns_blocked() is Some {
            self.campaigns_blocked()
        } else if !self.has_campaign(id) {
            Some(CrowdfundingError::CampaignNotFound)
        } else if c.claimed {
            Some(CrowdfundingError::CampaignAlreadyFunded)
        } else if c.cancelled {
            Some(CrowdfundingError::CampaignCancelled)
        } else if c.details.total_raised < c.details.goal {
            Some(CrowdfundingError::CampaignExpired)
        } else {
            None
        }
    }

    /// The payout of a successful claim: everything the campaign raised,
    /// to its creator.
    pub open spec fn claim_payout(&self, id: u64) -> Transfer {
        let c = self.campaign(id);
        Transfer {
            asset: c.details.token_address,
            from: self.contract_address,
            to: c.details.creator,
            amount: c.details.total_raised,
        }
    }

    /// Marks campaign `id` as claimed and returns the transfer that pays
    /// everything it raised to its creator. A campaign is claimed once.
    pub fn claim_campaign_funds(&mut self, id: u64) -> (r: Result<Transfer, CrowdfundingError>)
        requires
            old(self).wf(),
        ensures
            final(self).wf(),
            error_of(r) == old(self).claim_error(id),
            r is Err ==> *final(self) == *old(self),
            r is Ok ==> ({
                let i = old(self).campaign_index(id);
                &&& Self::campaign_replaced(
                    *old(self),
                    *final(self),
                    i,
                    CampaignRecord { claimed: true, ..old(self).campaigns@[i] },
                )
                &&& r == Ok::<Transfer, CrowdfundingError>(old(self).claim_payout(id))
            }),
    {
        self.campaigns_blocked_check()?;
        let i = match self.find_campaign(id) {
            Some(i) => i,
            None => return Err(CrowdfundingError::CampaignNotFound),
        };
        if self.campaigns[i].claimed {
            return Err(CrowdfundingError::CampaignAlreadyFunded);
        }
        if self.campaigns[i].cancelled {
            return Err(CrowdfundingError::CampaignCancelled);
        }
        if self.campaigns[i].details.total_raised < self.campaigns[i].details.goal {
            return Err(CrowdfundingError::CampaignExpired);
        }
        self.campaigns[i].claimed = true;
        proof {
            assert forall|a: int| 0 <= a < self.campaigns@.len() implies #[trigger] self.campaigns@[a].wf() by {
                assert(old(self).campaigns@[a].wf());
            }
            assert(self.campaigns@ == old(self).campaigns@.update(
                i as int,
                CampaignRecord { claimed: true, ..old(self).campaigns@[i as int] },
            ));
        }
        let c = &self.campaigns[i];
        Ok(
            Transfer {
                asset: c.details.token_address,
                from: self.contract_address,
                to: c.details.creator,
                amount: c.details.total_raised,
            },
        )
    }

    /// What claiming campaign `id` alone gives.
    pub open spec fn claim_outcome(&self, id: u64) -> Result<Transfer, CrowdfundingError> {
        match self.claim_error(id) {
            Some(e) => Err(e),
            None => Ok(self.claim_payout(id)),
        }
    }

    /// What position `k` of a batch claim over `ids` gives: each id is
    /// claimed as on its own, except that an id repeated after a successful
    /// claim finds the campaign already claimed.
    pub open spec fn batch_claim_result(&self, ids: Seq<u64>, k: int) -> Result<
        Transfer,
        CrowdfundingError,
    > {
        if ids.take(k).contains(ids[k]) && self.claim_error(ids[k]) is None {
            Err(CrowdfundingError::CampaignAlreadyFunded)
        } else {
            self.claim_outcome(ids[k])
        }
    }

    /// Whether a batch claim over `ids` claims campaign `id`.
    pub open spec fn batch_claims(&self, ids: Seq<u64>, id: u64) -> bool {
        ids.contains(id) && self.claim_error(id) is None
    }

    /// `new` is `old` after a batch claim over `ids`: the campaigns it claims
    /// are marked claimed, and nothing else changes.
    pub open spec fn batch_claim_effect(
        old: CrowdfundingContract,
        new: CrowdfundingContract,
        ids: Seq<u64>,
    ) -> bool {
        &&& new == (CrowdfundingContract { campaigns: new.campaigns, ..old })
        &&& new.campaigns@.len() == old.campaigns@.len()
        &&& forall|a: int|
            0 <= a < old.campaigns@.len() ==> #[trigger] new.campaigns@[a] == if old.batch_claims(
                ids,
                old.campaigns@[a].details.id,
            ) {
                CampaignRecord { claimed: true, ..old.campaigns@[a] }
            } else {
                old.campaigns@[a]
            }
    }

    /// Claims each campaign of `ids` in turn; the outcome of one does not
    /// stop or undo the others. Returns one outcome per id, in order.
    pub fn batch_claim_campaign_funds(&mut self, ids: &Vec<u64>) -> (r: Vec<
        Result<Transfer, CrowdfundingError>,
    >)
        requires
            old(self).wf(),
        ensures
            final(self).wf(),
            r@.len() == ids@.len(),
            forall|k: int| 0 <= k < ids@.len() ==> #[trigger] r@[k] == old(self).batch_claim_result(ids@, k),
            Self::batch_claim_effect(*old(self), *final(self), ids@),
    {
        let ghost start = *self;
        let mut results: Vec<Result<Transfer, CrowdfundingError>> = Vec::new();
        let mut i: usize = 0;
        proof {
            assert(ids@.take(0) =~= Seq::<u64>::empty());
        }
        while i < ids.len()
            invariant
                self.wf(),
                start.wf(),
                0 <= i <= ids@.len(),
                results@.len() == i,
                forall|k: int| 0 <= k < i ==> #[trigger] results@[k] == start.batch_claim_result(ids@, k),
                Self::batch_claim_effect(start, *self, ids@.take(i as int)),
            decreases ids@.len() - i,
        {
            let id = ids[i];
            let ghost prefix = ids@.take(i as int);
            let ghost before = *self;
            proof {
                // the campaign of `id` sits at the same position in both states
                if start.has_campaign(id) {
                    let a = start.campaign_index(id);
                    assert(before.campaigns@[a].details.id == id);
                    let b = before.campaign_index(id);
                    assert(before.campaigns@[b].details.id == id);
                    assert(start.campaigns@[b].details.id == id);
                    assert(a == b);
                    assert(before.campaigns@[a] == if start.batch_claims(prefix, id) {
                        CampaignRecord { claimed: true, ..start.campaigns@[a] }
                    } else {
                        start.campaigns@[a]
                    });
                } else {
                    assert forall|a: int| 0 <= a < before.campaigns@.len() implies before.campaigns@[a].details.id != id by {
                        assert(before.campaigns@[a] == if start.batch_claims(prefix, start.campaigns@[a].details.id) {
                            CampaignRecord { claimed: true, ..start.campaigns@[a] }
                        } else {
                            start.campaigns@[a]
                        });
                    }
                }
            }
            let outcome = self.claim_campaign_funds(id);
            results.push(outcome);
            proof {
                assert(ids@.take(i + 1) == prefix.push(id));
                assert(results@[i as int] == start.batch_claim_result(ids@, i as int));
                assert forall|a: int| 0 <= a < start.campaigns@.len() implies #[trigger] self.campaigns@[a] == if start.batch_claims(
                    ids@.take(i + 1),
                    start.campaigns@[a].details.id,
                ) {
                    CampaignRecord { claimed: true, ..start.campaigns@[a] }
                } else {
                    start.campaigns@[a]
                } by {
                    let aid = start.campaigns@[a].details.id;
                    assert(before.campaigns@[a] == if start.batch_claims(prefix, aid) {
                        CampaignRecord { claimed: true, ..start.campaigns@[a] }
                    } else {
                        start.campaigns@[a]
                    });
                    let q = prefix.push(id);
                    if q.contains(aid) {
                        let w = choose|w: int| 0 <= w < q.len() && q[w] == aid;
                        if w < prefix.len() {
                            assert(prefix[w] == aid);
                        }
                    }
                    if prefix.contains(aid) {
                        let w = choose|w: int| 0 <= w < prefix.len() && prefix[w] == aid;
                        assert(q[w] == aid);
                    }
                    if aid == id {
                        assert(q[prefix.len() as int] == aid);
                    }
                    assert(ids@.take(i + 1).contains(aid) <==> (prefix.contains(aid) || aid == id));
                    if outcome is Ok {
                        let j = before.campaign_index(id);
                        assert(before.campaigns@[j].details.id == id);
                        if a == j {
                            assert(start.campaigns@[a].details.id == id);
                        } else {
                            assert(before.campaigns@[a].details.id != id);
                        }
                    }
                }
            }
            i += 1;
        }
        proof {
            assert(ids@.take(ids@.len() as int) == ids@);
        }
        results
    }

    /// The first check that `cancel_campaign` fails, if any.
    pub open spec fn cancel_error(&self, id: u64) -> Option<CrowdfundingError> {
        if self.campaigns_blocked() is Some {
            self.campaigns_blocked()
        } else if !self.has_campaign(id) {
            Some(CrowdfundingError::CampaignNotFound)
        } else if self.campaign(id).cancelled {
            Some(CrowdfundingError::CampaignCancelled)
        } else if self.campaign(id).claimed {
            Some(CrowdfundingError::CampaignAlreadyFunded)
        } else {
            None
        }
    }

    /// Cancels campaign `id`, which opens refunds to its donors. A campaign
    /// whose funds were claimed cannot be cancelled.
    pub fn cancel_campaign(&mut self, id: u64) -> (r: Result<(), CrowdfundingError>)
        requires
            old(self).wf(),
        ensures
            final(self).wf(),
            error_of(r) == old(self).cancel_error(id),
            r is Err ==> *final(self) == *old(self),
            r is Ok ==> ({
                let i = old(self).campaign_index(id);
                Self::campaign_replaced(
                    *old(self),
                    *final(self),
                    i,
                    CampaignRecord { cancelled: true, ..old(self).campaigns@[i] },
                )
            }),
    {
        self.campaigns_blocked_check()?;
        let i = match self.find_campaign(id) {
            Some(i) => i,
            None => return Err(CrowdfundingError::CampaignNotFound),
        };
        if self.campaigns[i].cancelled {
            return Err(CrowdfundingError::CampaignCancelled);
        }
        if self.campaigns[i].claimed {
            return Err(CrowdfundingError::CampaignAlreadyFunded);
        }
        self.campaigns[i].cancelled = true;
        proof {
            assert forall|a: int| 0 <= a < self.campaigns@.len() implies #[trigger] self.campaigns@[a].wf() by {
                assert(old(self).campaigns@[a].wf());
            }
            assert(self.campaigns@ == old(self).campaigns@.update(
                i as int,
                CampaignRecord { cancelled: true, ..old(self).campaigns@[i as int] },
            ));
        }
        Ok(())
    }

    /// The first check that `refund_campaign` fails, if any.
    pub open spec fn refund_campaign_error(&self, id: u64, contributor: Address) -> Option<
        CrowdfundingError,
    > {
        if self.campaigns_blocked() is Some {
            self.campaigns_blocked()
        } else if !self.has_campaign(id) || !self.campaign(id).cancelled {
            Some(CrowdfundingError::RefundNotAvailable)
        } else if contribution_amount(self.campaign(id).contributions@, contributor) == 0 {
            Some(CrowdfundingError::NoContributionToRefund)
        } else {
            None
        }
    }

    /// Zeroes `contributor`'s record in cancelled campaign `id` and returns
    /// the transfer that gives the amount back.
    pub fn refund_campaign(&mut self, id: u64, contributor: Address) -> (r: Result<
        Transfer,
        CrowdfundingError,
    >)
        requires
            old(self).wf(),
        ensures
            final(self).wf(),
            error_of(r) == old(self).refund_campaign_error(id, contributor),
            r is Err ==> *final(self) == *old(self),
            r is Ok ==> ({
                let i = old(self).campaign_index(id);
                let o = old(self).campaigns@[i];
                let n = final(self).campaigns@[i];
                &&& Self::campaign_replaced(*old(self), *final(self), i, n)
                &&& n == (CampaignRecord { contributions: n.contributions, ..o })
                &&& n.contributions@ == o.contributions@.update(
                    contribution_index(o.contributions@, contributor),
                    Contribution { contributor, amount: 0 },
                )
                &&& r == Ok::<Transfer, CrowdfundingError>(
                    Transfer {
                        asset: o.details.token_address,
                        from: old(self).contract_address,
                        to: contributor,
                        amount: contribution_amount(o.contributions@, contributor) as i128,
                    },
                )
            }),
    {
        self.campaigns_blocked_check()?;
        let i = match self.find_campaign(id) {
            Some(i) => i,
            None => return Err(CrowdfundingError::RefundNotAvailable),
        };
        if !self.campaigns[i].cancelled {
            return Err(CrowdfundingError::RefundNotAvailable);
        }
        proof {
            assert(self.campaigns@[i as int].wf());
        }
        let k = match find_contribution(&self.campaigns[i].contributions, contributor) {
            Some(k) => k,
            None => return Err(CrowdfundingError::NoContributionToRefund),
        };
        let amount = self.campaigns[i].contributions[k].amount;
        if amount == 0 {
            return Err(CrowdfundingError::NoContributionToRefund);
        }
        proof {
            lemma_contributions_wf(self.campaigns@[i as int].contributions@, contributor, 0);
        }
        self.campaigns[i].contributions.set(k, Contribution { contributor, amount: 0 });
        proof {
            let j = old(self).campaign_index(id);
            assert(self.campaigns@[j].wf());
            assert forall|a: int| 0 <= a < self.campaigns@.len() implies #[trigger] self.campaigns@[a].wf() by {
                if a != j {
                    assert(old(self).campaigns@[a].wf());
                }
            }
        }
        Ok(
            Transfer {
                asset: self.campaigns[i].details.token_address,
                from: self.contract_address,
                to: contributor,
                amount,
            },
        )
    }

    /// The first check that `update_campaign_goal` fails, if any.
    pub open spec fn update_goal_error(&self, id: u64, new_goal: i128, now: u64) -> Option<
        CrowdfundingError,
    > {
        let c = self.campaign(id);
        if self.campaigns_blocked() is Some {
            self.campaigns_blocked()
        } else if !self.has_campaign(id) {
            Some(CrowdfundingError::CampaignNotFound)
        } else if now >= c.details.deadline {
            Some(CrowdfundingError::CampaignExpired)
        } else if new_goal <= 0 {
            Some(CrowdfundingError::InvalidGoal)
        } else if new_goal > c.details.goal || new_goal < c.details.total_raised {
            Some(CrowdfundingError::InvalidGoalUpdate)
        } else {
            None
        }
    }

    /// Lowers the goal of a running campaign, never below what it raised.
    pub fn update_campaign_goal(&mut self, id: u64, new_goal: i128, now: u64) -> (r: Result<
        (),
        CrowdfundingError,
    >)
        requires
            old(self).wf(),
        ensures
            final(self).wf(),
            error_of(r) == old(self).update_goal_error(id, new_goal, now),
            r is Err ==> *final(self) == *old(self),
            r is Ok ==> ({
                let i = old(self).campaign_index(id);
                let o = old(self).campaigns@[i];
                Self::campaign_replaced(
                    *old(self),
                    *final(self),
                    i,
                    CampaignRecord {
                        details: CampaignDetails { goal: new_goal, ..o.details },
                        ..o
                    },
                )
            }),
    {
        self.campaigns_blocked_check()?;
        let i = match self.find_campaign(id) {
            Some(i) => i,
            None => return Err(CrowdfundingError::CampaignNotFound),
        };
        if now >= self.campaigns[i].details.deadline {
            return Err(CrowdfundingError::CampaignExpired);
        }
        if new_goal <= 0 {
            return Err(CrowdfundingError::InvalidGoal);
        }
        if new_goal > self.campaigns[i].details.goal || new_goal
            < self.campaigns[i].details.total_raised {
            return Err(CrowdfundingError::InvalidGoalUpdate);
        }
        self.campaigns[i].details.goal = new_goal;
        proof {
            assert forall|a: int| 0 <= a < self.campaigns@.len() implies #[trigger] self.campaigns@[a].wf() by {
                assert(old(self).campaigns@[a].wf());
            }
            let o = old(self).campaigns@[i as int];
            assert(self.campaigns@ == old(self).campaigns@.update(
                i as int,
                CampaignRecord { details: CampaignDetails { goal: new_goal, ..o.details }, ..o },
            ));
        }
        Ok(())
    }

    /// The first check that `extend_campaign_deadline` fails, if any.
    pub open spec fn extend_deadline_error(&self, id: u64, new_deadline: u64, now: u64) -> Option<
        CrowdfundingError,
    > {
        let c = self.campaign(id);
        if self.campaigns_blocked() is Some {
            self.campaigns_blocked()
        } else if !self.has_campaign(id) {
            Some(CrowdfundingError::CampaignNotFound)
        } else if c.details.total_raised >= c.details.goal {
            Some(CrowdfundingError::CampaignAlreadyFunded)
        } else if new_deadline <= c.details.deadline || new_deadline - now > MAX_CAMPAIGN_DURATION {
            Some(CrowdfundingError::InvalidDeadline)
        } else {
            None
        }
    }

    /// Moves the deadline of a campaign that has not met its goal later,
    /// at most ninety days from now.
    pub fn extend_campaign_deadline(&mut self, id: u64, new_deadline: u64, now: u64) -> (r: Result<
        (),
        CrowdfundingError,
    >)
        requires
            old(self).wf(),
        ensures
            final(self).wf(),
            error_of(r) == old(self).extend_deadline_error(id, new_deadline, now),
            r is Err ==> *final(self) == *old(self),
            r is Ok ==> ({
                let i = old(self).campaign_index(id);
                let o = old(self).campaigns@[i];
                Self::campaign_replaced(
                    *old(self),
                    *final(self),
                    i,
                    CampaignRecord {
                        details: CampaignDetails { deadline: new_deadline, ..o.details },
                        ..o
                    },
                )
            }),
    {
        self.campaigns_blocked_check()?;
        let i = match self.find_campaign(id) {
            Some(i) => i,
            None => return Err(CrowdfundingError::CampaignNotFound),
        };
        if self.campaigns[i].details.total_raised >= self.campaigns[i].details.goal {
            return Err(CrowdfundingError::CampaignAlreadyFunded);
        }
        if new_deadline <= self.campaigns[i].details.deadline || new_deadline.saturating_sub(now)
            > MAX_CAMPAIGN_DURATION {
            return Err(CrowdfundingError::InvalidDeadline);
        }
        self.campaigns[i].details.deadline = new_deadline;
        proof {
            assert forall|a: int| 0 <= a < self.campaigns@.len() implies #[trigger] self.campaigns@[a].wf() by {
                assert(old(self).campaigns@[a].wf());
            }
            let o = old(self).campaigns@[i as int];
            assert(self.campaigns@ == old(self).campaigns@.update(
                i as int,
                CampaignRecord {
                    details: CampaignDetails { deadline: new_deadline, ..o.details },
                    ..o
                },
            ));
        }
        Ok(())
    }

    /// The details of campaign `id`.
    pub fn get_campaign(&self, id: u64) -> (r: Result<&CampaignDetails, CrowdfundingError>)
        requires
            self.wf(),
        ensures
            !self.has_campaign(id) ==> r == Err::<&CampaignDetails, CrowdfundingError>(
                CrowdfundingError::CampaignNotFound,
            ),
            self.has_campaign(id) ==> r == Ok::<&CampaignDetails, CrowdfundingError>(
                &self.campaign(id).details,
            ),
    {
        match self.find_campaign(id) {
            Some(i) => Ok(&self.campaigns[i].details),
            None => Err(CrowdfundingError::CampaignNotFound),
        }
    }

    /// Everything campaign `id` has raised.
    pub fn get_total_raised(&self, id: u64) -> (r: Result<i128, CrowdfundingError>)
        requires
            self.wf(),
        ensures
            !self.has_campaign(id) ==> r == Err::<i128, CrowdfundingError>(
                CrowdfundingError::CampaignNotFound,
            ),
            self.has_campaign(id) ==> r == Ok::<i128, CrowdfundingError>(
                self.campaign(id).details.total_raised,
            ),
    {
        match self.find_campaign(id) {
            Some(i) => Ok(self.campaigns[i].details.total_raised),
            None => Err(CrowdfundingError::CampaignNotFound),
        }
    }

    /// The goal of campaign `id`.
    pub fn get_campaign_goal(&self, id: u64) -> (r: Result<i128, CrowdfundingError>)
        requires
            self.wf(),
        ensures
            !self.has_campaign(id) ==> r == Err::<i128, CrowdfundingError>(
                CrowdfundingError::CampaignNotFound,
            ),
            self.has_campaign(id) ==> r == Ok::<i128, CrowdfundingError>(
                self.campaign(id).details.goal,
            ),
    {
        match self.find_campaign(id) {
            Some(i) => Ok(self.campaigns[i].details.goal),
            None => Err(CrowdfundingError::CampaignNotFound),
        }
    }

    /// Whether campaign `id` has met its goal.
    pub fn is_campaign_completed(&self, id: u64) -> (r: Result<bool, CrowdfundingError>)
        requires
            self.wf(),
        ensures
            !self.has_campaign(id) ==> r == Err::<bool, CrowdfundingError>(
                CrowdfundingError::CampaignNotFound,
            ),
            self.has_campaign(id) ==> r == Ok::<bool, CrowdfundingError>(
                self.campaign(id).details.total_raised >= self.campaign(id).details.goal,
            ),
    {
        match self.find_campaign(id) {
            Some(i) => Ok(self.campaigns[i].details.total_raised >= self.campaigns[i].details.goal),
            None => Err(CrowdfundingError::CampaignNotFound),
        }
    }

    /// How many distinct donors campaign `id` has had, capped at `u32::MAX`.
    pub fn get_donor_count(&self, id: u64) -> (r: Result<u32, CrowdfundingError>)
        requires
            self.wf(),
        ensures
            !self.has_campaign(id) ==> r == Err::<u32, CrowdfundingError>(
                CrowdfundingError::CampaignNotFound,
            ),
            self.has_campaign(id) ==> r == Ok::<u32, CrowdfundingError>(
                if self.campaign(id).contributions@.len() > u32::MAX {
                    u32::MAX
                } else {
                    self.campaign(id).contributions@.len() as u32
                },
            ),
    {
        match self.find_campaign(id) {
            Some(i) => {
                let n = self.campaigns[i].contributions.len();
                if n > u32::MAX as usize {
                    Ok(u32::MAX)
                } else {
                    Ok(n as u32)
                }
            },
            None => Err(CrowdfundingError::CampaignNotFound),
        }
    }

    /// What `contributor` has given to campaign `id` and not had refunded.
    pub fn get_contribution(&self, id: u64, contributor: Address) -> (r: Result<
        i128,
        CrowdfundingError,
    >)
        requires
            self.wf(),
        ensures
            !self.has_campaign(id) ==> r == Err::<i128, CrowdfundingError>(
                CrowdfundingError::CampaignNotFound,
            ),
            self.has_campaign(id) ==> r == Ok::<i128, CrowdfundingError>(
                contribution_amount(self.campaign(id).contributions@, contributor) as i128,
            ),
    {
        match self.find_campaign(id) {
            Some(i) => {
                proof {
                    assert(self.campaigns@[i as int].wf());
                }
                match find_contribution(&self.campaigns[i].contributions, contributor) {
                    Some(k) => Ok(self.campaigns[i].contributions[k].amount),
                    None => Ok(0),
                }
            },
            None => Err(CrowdfundingError::CampaignNotFound),
        }
    }

    /// The donor of the largest single donation to campaign `id`; the first
    /// one to give that much.
    pub fn get_top_contributor_for_campaign(&self, id: u64) -> (r: Result<
        Address,
        CrowdfundingError,
    >)
        requires
            self.wf(),
        ensures
            !self.has_campaign(id) ==> r == Err::<Address, CrowdfundingError>(
                CrowdfundingError::CampaignNotFound,
            ),
            self.has_campaign(id) ==> r == match self.campaign(id).top_contributor {
                Some(a) => Ok::<Address, CrowdfundingError>(a),
                None => Err(CrowdfundingError::CampaignNotFound),
            },
    {
        match self.find_campaign(id) {
            Some(i) => match self.campaigns[i].top_contributor {
                Some(a) => Ok(a),
                None => Err(CrowdfundingError::CampaignNotFound),
            },
            None => Err(CrowdfundingError::CampaignNotFound),
        }
    }

    /// Where campaign `id` stands at time `now`: cancelled, funded (its
    /// goal met), expired (its deadline passed) or active.
    pub fn get_campaign_status(&self, id: u64, now: u64) -> (r: Result<
        CampaignLifecycleStatus,
        CrowdfundingError,
    >)
        requires
            self.wf(),
        ensures
            !self.has_campaign(id) ==> r == Err::<CampaignLifecycleStatus, CrowdfundingError>(
                CrowdfundingError::CampaignNotFound,
            ),
            self.has_campaign(id) ==> r == Ok::<CampaignLifecycleStatus, CrowdfundingError>(
                campaign_status(self.campaign(id), now),
            ),
    {
        match self.find_campaign(id) {
            Some(i) => {
                let c = &self.campaigns[i];
                if c.cancelled {
                    Ok(CampaignLifecycleStatus::Cancelled)
                } else if c.details.total_raised >= c.details.goal {
                    Ok(CampaignLifecycleStatus::Funded)
                } else if now >= c.details.deadline {
                    Ok(CampaignLifecycleStatus::Expired)
                } else {
                    Ok(CampaignLifecycleStatus::Active)
                }
            },
            None => Err(CrowdfundingError::CampaignNotFound),
        }
    }

    /// Everything campaign `id` has raised, as its bookkeeping records it.
    pub fn get_campaign_balance(&self, id: u64) -> (r: Result<i128, CrowdfundingError>)
        requires
            self.wf(),
        ensures
            r == self.get_total_raised_spec(id),
    {
        self.get_total_raised(id)
    }

    /// What `get_total_raised` and `get_campaign_balance` return.
    pub open spec fn get_total_raised_spec(&self, id: u64) -> Result<i128, CrowdfundingError> {
        if self.has_campaign(id) {
            Ok(self.campaign(id).details.total_raised)
        } else {
            Err(CrowdfundingError::CampaignNotFound)
        }
    }

    /// The details of each campaign of `ids` that exists, in the order of
    /// `ids`; unknown ids are skipped.
    pub fn get_campaigns(&self, ids: &Vec<u64>) -> (r: Vec<CampaignDetails>)
        requires
            self.wf(),
        ensures
            r@.len() == known_ids(self, ids@).len(),
            forall|k: int|
                0 <= k < r@.len() ==> same_details(
                    #[trigger] r@[k],
                    self.campaign(known_ids(self, ids@)[k]).details,
                ),
    {
        let mut out: Vec<CampaignDetails> = Vec::new();
        let mut i: usize = 0;
        while i < ids.len()
            invariant
                self.wf(),
                0 <= i <= ids@.len(),
                out@.len() == known_ids(self, ids@.take(i as int)).len(),
                forall|k: int|
                    0 <= k < out@.len() ==> same_details(
                        #[trigger] out@[k],
                        self.campaign(known_ids(self, ids@.take(i as int))[k]).details,
                    ),
            decreases ids@.len() - i,
        {
            proof {
                assert(ids@.take(i + 1).drop_last() == ids@.take(i as int));
            }
            if let Some(j) = self.find_campaign(ids[i]) {
                out.push(copy_details(&self.campaigns[j].details));
            }
            i += 1;
        }
        proof {
            assert(ids@.take(ids@.len() as int) == ids@);
        }
        out
    }

    /// The ids of all campaigns, in the order of creation.
    pub fn get_all_campaigns(&self) -> (r: Vec<u64>)
        ensures
            r@.len() == self.campaigns@.len(),
            forall|i: int| 0 <= i < r@.len() ==> r@[i] == #[trigger] self.campaigns@[i].details.id,
    {
        let mut ids: Vec<u64> = Vec::new();
        let mut i: usize = 0;
        while i < self.campaigns.len()
            invariant
                0 <= i <= self.campaigns@.len(),
                ids@.len() == i,
                forall|k: int| 0 <= k < i ==> ids@[k] == #[trigger] self.campaigns@[k].details.id,
            decreases self.campaigns@.len() - i,
        {
            ids.push(self.campaigns[i].details.id);
            i += 1;
        }
        ids
    }

    /// How many campaigns have a deadline after `now`, capped at `u32::MAX`.
    pub fn get_active_campaign_count(&self, now: u64) -> (r: u32)
        ensures
            r == if active_count(self.campaigns@, now) > u32::MAX {
                u32::MAX as int
            } else {
                active_count(self.campaigns@, now)
            },
    {
        let mut count: u32 = 0;
        let mut i: usize = 0;
        while i < self.campaigns.len()
            invariant
                0 <= i <= self.campaigns@.len(),
                count == if active_count(self.campaigns@.take(i as int), now) > u32::MAX {
                    u32::MAX as int
                } else {
                    active_count(self.campaigns@.take(i as int), now)
                },
            decreases self.campaigns@.len() - i,
        {
            proof {
                assert(self.campaigns@.take(i + 1).drop_last() == self.campaigns@.take(i as int));
            }
            if self.campaigns[i].details.deadline > now && count < u32::MAX {
                count += 1;
            }
            i += 1;
        }
        proof {
            assert(self.campaigns@.take(i as int) == self.campaigns@);
        }
        count
    }
}

/// The ids among `ids` that name an existing campaign, in order.
pub open spec fn known_ids(s: &CrowdfundingContract, ids: Seq<u64>) -> Seq<u64>
    decreases ids.len(),
{
    if ids.len() == 0 {
        Seq::empty()
    } else if s.has_campaign(ids.last()) {
        known_ids(s, ids.drop_last()).push(ids.last())
    } else {
        known_ids(s, ids.drop_last())
    }
}

/// `a` holds the same values as `b`.
pub open spec fn same_details(a: CampaignDetails, b: CampaignDetails) -> bool {
    &&& a.title@ == b.title@
    &&& a == (CampaignDetails { title: a.title, ..b })
}

/// A copy of `d`.
fn copy_details(d: &CampaignDetails) -> (r: CampaignDetails)
    ensures
        same_details(r, *d),
{
    CampaignDetails {
        id: d.id,
        title: d.title.clone(),
        creator: d.creator,
        goal: d.goal,
        deadline: d.deadline,
        total_raised: d.total_raised,
        token_address: d.token_address,
    }
}

/// Where `c` stands at time `now`.
pub open spec fn campaign_status(c: CampaignRecord, now: u64) -> CampaignLifecycleStatus {
    if c.cancelled {
        CampaignLifecycleStatus::Cancelled
    } else if c.details.total_raised >= c.details.goal {
        CampaignLifecycleStatus::Funded
    } else if now >= c.details.deadline {
        CampaignLifecycleStatus::Expired
    } else {
        CampaignLifecycleStatus::Active
    }
}

/// How many of the campaigns `s` have a deadline after `now`.
pub open spec fn active_count(s: Seq<CampaignRecord>, now: u64) -> int
    decreases s.len(),
{
    if s.len() == 0 {
        0
    } else {
        active_count(s.drop_last(), now) + if s.last().details.deadline > now {
            1int
        } else {
            0
        }
    }
}

} // verus!
