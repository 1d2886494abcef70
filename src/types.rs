use vstd::prelude::*;

verus! {

/// An account or contract identity, as the host hands it to the ledger.
pub type Address = u64;

/// Lifecycle of a pool. `Closed` is absorbing; `Completed` admits nothing
/// but closing.
#[derive(Clone, Copy, Debug, PartialEq, Eq, Structural)]
pub enum PoolState {
    Active,
    Paused,
    Cancelled,
    Disbursed,
    Completed,
    Closed,
}

/// What a campaign was created with, and what it has raised.
#[derive(Clone, Debug, PartialEq, Eq)]
pub struct CampaignDetails {
    pub id: u64,
    pub title: Vec<u8>,
    pub creator: Address,
    pub goal: i128,
    pub deadline: u64,
    pub total_raised: i128,
    pub token_address: Address,
}

/// The cumulative amount one donor gave to one campaign; zeroed, never
/// removed, on refund.
#[derive(Clone, Copy, Debug, PartialEq, Eq, Structural)]
pub struct Contribution {
    pub contributor: Address,
    pub amount: i128,
}

/// A campaign with its bookkeeping.
#[derive(Clone, Debug)]
pub struct CampaignRecord {
    pub details: CampaignDetails,
    pub cancelled: bool,
    pub claimed: bool,
    pub max_donation: i128,
    pub top_contributor: Option<Address>,
    pub last_donation_at: u64,
    pub contributions: Vec<Contribution>,
}

/// Where a campaign stands at a given time.
#[derive(Clone, Copy, Debug, PartialEq, Eq, Structural)]
pub enum CampaignLifecycleStatus {
    Active,
    Funded,
    Expired,
    Cancelled,
}

/// The fixed description of a pool.
#[derive(Clone, Debug, PartialEq, Eq)]
pub struct PoolConfig {
    pub name: Vec<u8>,
    pub description: Vec<u8>,
    pub target_amount: i128,
    pub min_contribution: i128,
    pub is_private: bool,
    pub duration: u64,
    pub created_at: u64,
}

/// Free-form descriptive data of a pool.
#[derive(Clone, Debug, PartialEq, Eq)]
pub struct PoolMetadata {
    pub description: Vec<u8>,
    pub external_url: Vec<u8>,
    pub image_hash: Vec<u8>,
}

/// The cumulative amount one contributor gave to one pool.
#[derive(Clone, Copy, Debug, PartialEq, Eq, Structural)]
pub struct PoolContribution {
    pub pool_id: u64,
    pub contributor: Address,
    pub amount: i128,
    pub asset: Address,
}

/// Who may approve releases of a pool's funds, and how many must.
#[derive(Clone, Debug, PartialEq, Eq)]
pub struct MultiSigConfig {
    pub required_signatures: u32,
    pub signers: Vec<Address>,
}

/// A request to release pool funds, with the signers that approved it.
#[derive(Clone, Debug, PartialEq, Eq)]
pub struct DisbursementRequest {
    pub id: u64,
    pub pool_id: u64,
    pub amount: i128,
    pub recipient: Address,
    pub created_at: u64,
    pub approvals: Vec<Address>,
    pub executed: bool,
}

/// A pool with its state, contributions and disbursement requests.
#[derive(Clone, Debug)]
pub struct PoolRecord {
    pub config: PoolConfig,
    pub metadata: PoolMetadata,
    pub creator: Address,
    pub state: PoolState,
    pub multi_sig: Option<MultiSigConfig>,
    pub total_raised: i128,
    pub contributor_count: u32,
    pub last_contribution_at: u64,
    /// In the order in which each contributor first gave.
    pub contributions: Vec<PoolContribution>,
    pub disbursements: Vec<DisbursementRequest>,
}

/// The single outstanding emergency withdrawal.
#[derive(Clone, Copy, Debug, PartialEq, Eq, Structural)]
pub struct EmergencyWithdrawal {
    pub recipient: Address,
    pub amount: i128,
    pub token: Address,
    pub requested_at: u64,
    pub executed: bool,
}

/// A movement of `amount` of `asset` from `from` to `to` that the host must
/// carry out once the ledger has recorded its effects.
#[derive(Clone, Copy, Debug, PartialEq, Eq, Structural)]
pub struct Transfer {
    pub asset: Address,
    pub from: Address,
    pub to: Address,
    pub amount: i128,
}

} // verus!

verus! {

/// Time after a pool's deadline before refunds open: seven days, in seconds.
pub const REFUND_GRACE_PERIOD: u64 = 604_800;

/// The sum of the amounts of a sequence of pool contributions.
pub open spec fn sum_amounts(s: Seq<PoolContribution>) -> int
    decreases s.len(),
{
    if s.len() == 0 {
        0
    } else {
        sum_amounts(s.drop_last()) + s.last().amount
    }
}

impl CampaignRecord {
    /// Donors are listed once each, and no amount is negative.
    pub open spec fn wf(&self) -> bool {
        &&& self.details.goal > 0
        &&& self.details.total_raised >= 0
        &&& forall|i: int, j: int|
            0 <= i < self.contributions@.len() && 0 <= j < self.contributions@.len() && i != j
                ==> self.contributions@[i].contributor != self.contributions@[j].contributor
        &&& forall|i: int|
            0 <= i < self.contributions@.len() ==> #[trigger] self.contributions@[i].amount >= 0
    }
}

impl MultiSigConfig {
    /// At least one and at most all signers must approve; signers are unique.
    pub open spec fn wf(&self) -> bool {
        &&& 1 <= self.required_signatures <= self.signers@.len()
        &&& self.signers@.no_duplicates()
    }
}

impl DisbursementRequest {
    /// The approvals of a request name each signer once.
    pub open spec fn wf(&self, pool_id: u64, id: u64) -> bool {
        &&& self.pool_id == pool_id
        &&& self.id == id
        &&& self.approvals@.no_duplicates()
    }
}

impl PoolRecord {
    /// Contributors are listed once each, amounts are not negative and add
    /// up to the pool's total; requests are numbered from one.
    pub open spec fn wf(&self, pool_id: u64) -> bool {
        &&& match self.multi_sig {
            Some(m) => m.wf(),
            None => true,
        }
        &&& forall|i: int, j: int|
            0 <= i < self.contributions@.len() && 0 <= j < self.contributions@.len() && i != j
                ==> self.contributions@[i].contributor != self.contributions@[j].contributor
        &&& forall|i: int|
            0 <= i < self.contributions@.len() ==> (#[trigger] self.contributions@[i]).amount >= 0
                && self.contributions@[i].pool_id == pool_id
        &&& self.total_raised == sum_amounts(self.contributions@)
        &&& self.config.created_at + self.config.duration + REFUND_GRACE_PERIOD <= u64::MAX
        &&& self.disbursements@.len() < u64::MAX
        &&& forall|i: int|
            0 <= i < self.disbursements@.len() ==> (#[trigger] self.disbursements@[i]).wf(
                pool_id,
                (i + 1) as u64,
            )
    }
}

} // verus!
