use vstd::prelude::*;

use crate::errors::CrowdfundingError;
use crate::reentrancy::ReentrancyGuard;
use crate::types::{Address, CampaignRecord, EmergencyWithdrawal, PoolRecord};

verus! {

/// The whole persistent state of the ledger. Every operation takes it
/// explicitly; nothing lives in globals.
#[derive(Clone, Debug)]
pub struct CrowdfundingContract {
    /// The ledger's own account: funds in custody are held there.
    pub contract_address: Address,
    pub initialized: bool,
    pub admin: Option<Address>,
    pub token: Option<Address>,
    pub creation_fee: i128,
    pub platform_fees: i128,
    pub paused: bool,
    pub pools_paused: bool,
    pub campaigns_paused: bool,
    pub campaigns: Vec<CampaignRecord>,
    /// The pool with id `k` is `pools[k - 1]`.
    pub pools: Vec<PoolRecord>,
    pub guard: ReentrancyGuard,
    pub emergency: Option<EmergencyWithdrawal>,
    /// Everything ever donated to campaigns, refunds aside.
    pub global_raised: i128,
    pub emergency_contact: Option<Address>,
    /// Causes the admin has vouched for.
    pub verified_causes: Vec<Address>,
}

/// The `Err` of an operation's result, as an `Option`.
pub open spec fn error_of<T>(r: Result<T, CrowdfundingError>) -> Option<CrowdfundingError> {
    match r {
        Ok(_) => None,
        Err(e) => Some(e),
    }
}

impl CrowdfundingContract {
    /// Everything the ledger's operations keep true.
    pub open spec fn wf(&self) -> bool {
        &&& self.creation_fee >= 0
        &&& self.platform_fees >= 0
        &&& self.global_raised >= 0
        &&& (self.admin is Some ==> self.initialized)
        &&& self.campaigns_wf()
        &&& self.pools_wf()
    }

    /// Campaign ids are unique, and each campaign's records are sound.
    pub open spec fn campaigns_wf(&self) -> bool {
        &&& forall|i: int, j: int|
            0 <= i < self.campaigns@.len() && 0 <= j < self.campaigns@.len() && i != j
                ==> self.campaigns@[i].details.id != self.campaigns@[j].details.id
        &&& forall|i: int| 0 <= i < self.campaigns@.len() ==> #[trigger] self.campaigns@[i].wf()
    }

    /// Each pool's records are sound, and pool ids follow positions.
    pub open spec fn pools_wf(&self) -> bool {
        &&& self.pools@.len() < u64::MAX
        &&& forall|i: int| 0 <= i < self.pools@.len() ==> #[trigger] self.pools@[i].wf((i + 1) as u64)
    }

    /// The pause check shared by the campaign operations.
    pub open spec fn campaigns_blocked(&self) -> Option<CrowdfundingError> {
        if self.paused {
            Some(CrowdfundingError::ContractPaused)
        } else if self.campaigns_paused {
            Some(CrowdfundingError::CampaignsPaused)
        } else {
            None
        }
    }

    /// The pause check shared by the pool operations.
    pub open spec fn pools_blocked(&self) -> Option<CrowdfundingError> {
        if self.paused {
            Some(CrowdfundingError::ContractPaused)
        } else if self.pools_paused {
            Some(CrowdfundingError::PoolsPaused)
        } else {
            None
        }
    }

    /// A ledger that nobody has initialized yet, holding funds at
    /// `contract_address`.
    pub fn new(contract_address: Address) -> (s: CrowdfundingContract)
        ensures
            s.wf(),
            s.contract_address == contract_address,
            !s.initialized,
            s.admin is None,
            s.token is None,
            s.creation_fee == 0,
            s.platform_fees == 0,
            !s.paused && !s.pools_paused && !s.campaigns_paused,
            s.campaigns@.len() == 0,
            s.pools@.len() == 0,
            forall|p: u64| !s.guard.pool_locked(p),
            !s.guard.emergency_locked,
            s.emergency is None,
            s.global_raised == 0,
            s.emergency_contact is None,
            s.verified_causes@.len() == 0,
    {
        CrowdfundingContract {
            contract_address,
            initialized: false,
            admin: None,
            token: None,
            creation_fee: 0,
            platform_fees: 0,
            paused: false,
            pools_paused: false,
            campaigns_paused: false,
            campaigns: Vec::new(),
            pools: Vec::new(),
            guard: ReentrancyGuard::new(),
            emergency: None,
            global_raised: 0,
            emergency_contact: None,
            verified_causes: Vec::new(),
        }
    }

    /// Refuses a campaign operation while the ledger or the campaigns
    /// module is paused.
    pub(crate) fn campaigns_blocked_check(&self) -> (r: Result<(), CrowdfundingError>)
        ensures
            error_of(r) == self.campaigns_blocked(),
    {
        if self.paused {
            Err(CrowdfundingError::ContractPaused)
        } else if self.campaigns_paused {
            Err(CrowdfundingError::CampaignsPaused)
        } else {
            Ok(())
        }
    }

    /// Refuses a pool operation while the ledger or the pools module is
    /// paused.
    pub(crate) fn pools_blocked_check(&self) -> (r: Result<(), CrowdfundingError>)
        ensures
            error_of(r) == self.pools_blocked(),
    {
        if self.paused {
            Err(CrowdfundingError::ContractPaused)
        } else if self.pools_paused {
            Err(CrowdfundingError::PoolsPaused)
        } else {
            Ok(())
        }
    }
}

} // verus!
