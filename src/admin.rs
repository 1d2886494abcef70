use vstd::prelude::*;

use crate::contract::CrowdfundingContract;
use crate::errors::CrowdfundingError;
use crate::fees::fee_of;
use crate::types::{Address, Transfer};

verus! {

impl CrowdfundingContract {
    /// Sets the admin, the funding token and the creation fee, once.
    pub fn initialize(&mut self, admin: Address, token: Address, creation_fee: i128) -> (r: Result<
        (),
        CrowdfundingError,
    >)
        requires
            old(self).wf(),
        ensures
            final(self).wf(),
            old(self).initialized ==> r == Err::<(), CrowdfundingError>(
                CrowdfundingError::ContractAlreadyInitialized,
            ),
            !old(self).initialized && creation_fee < 0 ==> r == Err::<(), CrowdfundingError>(
                CrowdfundingError::InvalidFee,
            ),
            r is Err ==> *final(self) == *old(self),
            !old(self).initialized && creation_fee >= 0 ==> r is Ok,
            r is Ok ==> *final(self) == (CrowdfundingContract {
                initialized: true,
                admin: Some(admin),
                token: Some(token),
                creation_fee,
                paused: false,
                ..*old(self)
            }),
    {
        if self.initialized {
            return Err(CrowdfundingError::ContractAlreadyInitialized);
        }
        if creation_fee < 0 {
            return Err(CrowdfundingError::InvalidFee);
        }
        self.initialized = true;
        self.admin = Some(admin);
        self.token = Some(token);
        self.creation_fee = creation_fee;
        self.paused = false;
        Ok(())
    }

    /// The current admin, if one is set: the identity that the host must
    /// have authorise each admin-gated call.
    pub fn get_admin(&self) -> (r: Option<Address>)
        ensures
            r == self.admin,
    {
        self.admin
    }

    /// Pauses every state-changing operation.
    pub fn pause(&mut self) -> (r: Result<(), CrowdfundingError>)
        requires
            old(self).wf(),
        ensures
            final(self).wf(),
            old(self).admin is None ==> r == Err::<(), CrowdfundingError>(
                CrowdfundingError::NotInitialized,
            ),
            old(self).admin is Some && old(self).paused ==> r == Err::<(), CrowdfundingError>(
                CrowdfundingError::ContractAlreadyPaused,
            ),
            r is Err ==> *final(self) == *old(self),
            old(self).admin is Some && !old(self).paused ==> r is Ok,
            r is Ok ==> *final(self) == (CrowdfundingContract { paused: true, ..*old(self) }),
    {
        if self.admin.is_none() {
            return Err(CrowdfundingError::NotInitialized);
        }
        if self.paused {
            return Err(CrowdfundingError::ContractAlreadyPaused);
        }
        self.paused = true;
        Ok(())
    }

    /// Lifts the global pause; the module flags keep their values.
    pub fn unpause(&mut self) -> (r: Result<(), CrowdfundingError>)
        requires
            old(self).wf(),
        ensures
            final(self).wf(),
            old(self).admin is None ==> r == Err::<(), CrowdfundingError>(
                CrowdfundingError::NotInitialized,
            ),
            old(self).admin is Some && !old(self).paused ==> r == Err::<(), CrowdfundingError>(
                CrowdfundingError::ContractAlreadyUnpaused,
            ),
            r is Err ==> *final(self) == *old(self),
            old(self).admin is Some && old(self).paused ==> r is Ok,
            r is Ok ==> *final(self) == (CrowdfundingContract { paused: false, ..*old(self) }),
    {
        if self.admin.is_none() {
            return Err(CrowdfundingError::NotInitialized);
        }
        if !self.paused {
            return Err(CrowdfundingError::ContractAlreadyUnpaused);
        }
        self.paused = false;
        Ok(())
    }

    /// Pauses the pool operations only.
    pub fn pause_pools(&mut self) -> (r: Result<(), CrowdfundingError>)
        requires
            old(self).wf(),
        ensures
            final(self).wf(),
            old(self).admin is None ==> r == Err::<(), CrowdfundingError>(
                CrowdfundingError::NotInitialized,
            ),
            old(self).admin is Some && old(self).pools_paused ==> r == Err::<
                (),
                CrowdfundingError,
            >(CrowdfundingError::PoolsAlreadyPaused),
            r is Err ==> *final(self) == *old(self),
            old(self).admin is Some && !old(self).pools_paused ==> r is Ok,
            r is Ok ==> *final(self) == (CrowdfundingContract { pools_paused: true, ..*old(self) }),
    {
        if self.admin.is_none() {
            return Err(CrowdfundingError::NotInitialized);
        }
        if self.pools_paused {
            return Err(CrowdfundingError::PoolsAlreadyPaused);
        }
        self.pools_paused = true;
        Ok(())
    }

    /// Lifts the pause of the pool operations.
    pub fn unpause_pools(&mut self) -> (r: Result<(), CrowdfundingError>)
        requires
            old(self).wf(),
        ensures
            final(self).wf(),
            old(self).admin is None ==> r == Err::<(), CrowdfundingError>(
                CrowdfundingError::NotInitialized,
            ),
            old(self).admin is Some && !old(self).pools_paused ==> r == Err::<
                (),
                CrowdfundingError,
            >(CrowdfundingError::PoolsAlreadyUnpaused),
            r is Err ==> *final(self) == *old(self),
            old(self).admin is Some && old(self).pools_paused ==> r is Ok,
            r is Ok ==> *final(self) == (CrowdfundingContract { pools_paused: false, ..*old(self) }),
    {
        if self.admin.is_none() {
            return Err(CrowdfundingError::NotInitialized);
        }
        if !self.pools_paused {
            return Err(CrowdfundingError::PoolsAlreadyUnpaused);
        }
        self.pools_paused = false;
        Ok(())
    }

    /// Pauses the campaign operations only.
    pub fn pause_campaigns(&mut self) -> (r: Result<(), CrowdfundingError>)
        requires
            old(self).wf(),
        ensures
            final(self).wf(),
            old(self).admin is None ==> r == Err::<(), CrowdfundingError>(
                CrowdfundingError::NotInitialized,
            ),
            old(self).admin is Some && old(self).campaigns_paused ==> r == Err::<
                (),
                CrowdfundingError,
            >(CrowdfundingError::CampaignsAlreadyPaused),
            r is Err ==> *final(self) == *old(self),
            old(self).admin is Some && !old(self).campaigns_paused ==> r is Ok,
            r is Ok ==> *final(self) == (CrowdfundingContract {
                campaigns_paused: true,
                ..*old(self)
            }),
    {
        if self.admin.is_none() {
            return Err(CrowdfundingError::NotInitialized);
        }
        if self.campaigns_paused {
            return Err(CrowdfundingError::CampaignsAlreadyPaused);
        }
        self.campaigns_paused = true;
        Ok(())
    }

    /// Lifts the pause of the campaign operations.
    pub fn unpause_campaigns(&mut self) -> (r: Result<(), CrowdfundingError>)
        requires
            old(self).wf(),
        ensures
            final(self).wf(),
            old(self).admin is None ==> r == Err::<(), CrowdfundingError>(
                CrowdfundingError::NotInitialized,
            ),
            old(self).admin is Some && !old(self).campaigns_paused ==> r == Err::<
                (),
                CrowdfundingError,
            >(CrowdfundingError::CampaignsAlreadyUnpaused),
            r is Err ==> *final(self) == *old(self),
            old(self).admin is Some && old(self).campaigns_paused ==> r is Ok,
            r is Ok ==> *final(self) == (CrowdfundingContract {
                campaigns_paused: false,
                ..*old(self)
            }),
    {
        if self.admin.is_none() {
            return Err(CrowdfundingError::NotInitialized);
        }
        if !self.campaigns_paused {
            return Err(CrowdfundingError::CampaignsAlreadyUnpaused);
        }
        self.campaigns_paused = false;
        Ok(())
    }

    /// Whether the whole ledger is paused.
    pub fn is_paused(&self) -> (r: bool)
        ensures
            r == self.paused,
    {
        self.paused
    }

    /// Whether the pools module is paused (the global flag aside).
    pub fn is_pools_paused(&self) -> (r: bool)
        ensures
            r == self.pools_paused,
    {
        self.pools_paused
    }

    /// Whether the campaigns module is paused (the global flag aside).
    pub fn is_campaigns_paused(&self) -> (r: bool)
        ensures
            r == self.campaigns_paused,
    {
        self.campaigns_paused
    }

    /// Hands the admin role to `new_admin`.
    pub fn transfer_ownership(&mut self, new_admin: Address) -> (r: Result<(), CrowdfundingError>)
        requires
            old(self).wf(),
        ensures
            final(self).wf(),
            old(self).admin is None <==> r == Err::<(), CrowdfundingError>(
                CrowdfundingError::NotInitialized,
            ),
            old(self).admin is Some ==> r is Ok,
            r is Err ==> *final(self) == *old(self),
            r is Ok ==> *final(self) == (CrowdfundingContract {
                admin: Some(new_admin),
                ..*old(self)
            }),
    {
        if self.admin.is_none() {
            return Err(CrowdfundingError::NotInitialized);
        }
        self.admin = Some(new_admin);
        Ok(())
    }

    /// Gives up the admin role for good: the ledger cannot be initialized
    /// again, so no admin-gated call can succeed afterwards.
    pub fn renounce_admin(&mut self) -> (r: Result<(), CrowdfundingError>)
        requires
            old(self).wf(),
        ensures
            final(self).wf(),
            old(self).admin is None <==> r == Err::<(), CrowdfundingError>(
                CrowdfundingError::NotInitialized,
            ),
            old(self).admin is Some ==> r is Ok,
            r is Err ==> *final(self) == *old(self),
            r is Ok ==> *final(self) == (CrowdfundingContract { admin: None, ..*old(self) }),
    {
        if self.admin.is_none() {
            return Err(CrowdfundingError::NotInitialized);
        }
        self.admin = None;
        Ok(())
    }

    /// Sets the token in which new campaigns are funded.
    pub fn set_crowdfunding_token(&mut self, token: Address) -> (r: Result<(), CrowdfundingError>)
        requires
            old(self).wf(),
        ensures
            final(self).wf(),
            old(self).admin is None <==> r == Err::<(), CrowdfundingError>(
                CrowdfundingError::NotInitialized,
            ),
            old(self).admin is Some ==> r is Ok,
            r is Err ==> *final(self) == *old(self),
            r is Ok ==> *final(self) == (CrowdfundingContract { token: Some(token), ..*old(self) }),
    {
        if self.admin.is_none() {
            return Err(CrowdfundingError::NotInitialized);
        }
        self.token = Some(token);
        Ok(())
    }

    /// The token in which new campaigns are funded.
    pub fn get_crowdfunding_token(&self) -> (r: Result<Address, CrowdfundingError>)
        ensures
            match self.token {
                Some(t) => r == Ok::<Address, CrowdfundingError>(t),
                None => r == Err::<Address, CrowdfundingError>(CrowdfundingError::NotInitialized),
            },
    {
        match self.token {
            Some(t) => Ok(t),
            None => Err(CrowdfundingError::NotInitialized),
        }
    }

    /// Sets the fee charged for creating a campaign.
    pub fn set_creation_fee(&mut self, fee: i128) -> (r: Result<(), CrowdfundingError>)
        requires
            old(self).wf(),
        ensures
            final(self).wf(),
            old(self).admin is None ==> r == Err::<(), CrowdfundingError>(
                CrowdfundingError::NotInitialized,
            ),
            old(self).admin is Some && fee < 0 ==> r == Err::<(), CrowdfundingError>(
                CrowdfundingError::InvalidFee,
            ),
            r is Err ==> *final(self) == *old(self),
            old(self).admin is Some && fee >= 0 ==> r is Ok,
            r is Ok ==> *final(self) == (CrowdfundingContract { creation_fee: fee, ..*old(self) }),
    {
        if self.admin.is_none() {
            return Err(CrowdfundingError::NotInitialized);
        }
        if fee < 0 {
            return Err(CrowdfundingError::InvalidFee);
        }
        self.creation_fee = fee;
        Ok(())
    }

    /// The fee charged for creating a campaign; zero until one is set.
    pub fn get_creation_fee(&self) -> (r: i128)
        ensures
            r == self.creation_fee,
    {
        self.creation_fee
    }

    /// Pays `amount` of the collected platform fees out to the admin.
    pub fn withdraw_platform_fees(&mut self, admin: Address, amount: i128) -> (r: Result<
        Transfer,
        CrowdfundingError,
    >)
        requires
            old(self).wf(),
        ensures
            final(self).wf(),
            r == Err::<Transfer, CrowdfundingError>(CrowdfundingError::NotInitialized) <==> (
            old(self).admin is None || (old(self).admin == Some(admin) && 0 < amount
                <= old(self).platform_fees && old(self).token is None)),
            old(self).admin is Some && old(self).admin != Some(admin) ==> r == Err::<
                Transfer,
                CrowdfundingError,
            >(CrowdfundingError::Unauthorized),
            old(self).admin == Some(admin) && amount <= 0 ==> r == Err::<
                Transfer,
                CrowdfundingError,
            >(CrowdfundingError::InvalidAmount),
            old(self).admin == Some(admin) && 0 < amount && amount > old(self).platform_fees
                ==> r == Err::<Transfer, CrowdfundingError>(CrowdfundingError::InsufficientFees),
            r is Err ==> *final(self) == *old(self),
            r is Ok <==> old(self).admin == Some(admin) && 0 < amount <= old(self).platform_fees
                && old(self).token is Some,
            r is Ok ==> *final(self) == (CrowdfundingContract {
                platform_fees: (old(self).platform_fees - amount) as i128,
                ..*old(self)
            }) && r == Ok::<Transfer, CrowdfundingError>(
                Transfer {
                    asset: old(self).token.unwrap(),
                    from: old(self).contract_address,
                    to: admin,
                    amount,
                },
            ),
    {
        let stored = match self.admin {
            Some(a) => a,
            None => return Err(CrowdfundingError::NotInitialized),
        };
        if admin != stored {
            return Err(CrowdfundingError::Unauthorized);
        }
        if amount <= 0 {
            return Err(CrowdfundingError::InvalidAmount);
        }
        if amount > self.platform_fees {
            return Err(CrowdfundingError::InsufficientFees);
        }
        let token = match self.token {
            Some(t) => t,
            None => return Err(CrowdfundingError::NotInitialized),
        };
        self.platform_fees = self.platform_fees - amount;
        Ok(Transfer { asset: token, from: self.contract_address, to: admin, amount })
    }

    /// Fee at `fee_bps` basis points on `amount`: the same value as
    /// [`crate::fees::calculate_platform_fee`], for inputs it accepts.
    pub fn calculate_platform_fee(amount: i128, fee_bps: u32) -> (r: i128)
        requires
            amount >= 0,
            fee_bps <= 10_000,
        ensures
            r == fee_of(amount as int, fee_bps as int),
    {
        proof {
            crate::fees::lemma_fee_bounded(amount as int, fee_bps as int);
        }
        match crate::fees::calculate_platform_fee(amount, fee_bps) {
            Ok(fee) => fee,
            Err(_) => 0,
        }
    }

    /// The version of the ledger's rules.
    pub fn get_contract_version() -> (r: &'static str)
        ensures
            r@ == "1.2.0"@,
    {
        "1.2.0"
    }

    /// Everything ever donated to campaigns.
    pub fn get_global_raised_total(&self) -> (r: i128)
        ensures
            r == self.global_raised,
    {
        self.global_raised
    }

    /// Records that the admin vouches for `cause`.
    pub fn verify_cause(&mut self, cause: Address) -> (r: Result<(), CrowdfundingError>)
        requires
            old(self).wf(),
        ensures
            final(self).wf(),
            old(self).admin is None <==> r == Err::<(), CrowdfundingError>(
                CrowdfundingError::NotInitialized,
            ),
            old(self).admin is Some ==> r is Ok,
            r is Err ==> *final(self) == *old(self),
            r is Ok ==> *final(self) == (CrowdfundingContract {
                verified_causes: final(self).verified_causes,
                ..*old(self)
            }) && final(self).verified_causes@ == old(self).verified_causes@.push(cause),
    {
        if self.admin.is_none() {
            return Err(CrowdfundingError::NotInitialized);
        }
        self.verified_causes.push(cause);
        Ok(())
    }

    /// Whether the admin has vouched for `cause`.
    pub fn is_cause_verified(&self, cause: Address) -> (r: bool)
        ensures
            r == self.verified_causes@.contains(cause),
    {
        let mut i: usize = 0;
        while i < self.verified_causes.len()
            invariant
                0 <= i <= self.verified_causes@.len(),
                forall|k: int| 0 <= k < i ==> self.verified_causes@[k] != cause,
            decreases self.verified_causes@.len() - i,
        {
            if self.verified_causes[i] == cause {
                return true;
            }
            i += 1;
        }
        false
    }

    /// Sets whom to reach in an emergency.
    pub fn set_emergency_contact(&mut self, contact: Address) -> (r: Result<(), CrowdfundingError>)
        requires
            old(self).wf(),
        ensures
            final(self).wf(),
            old(self).admin is None <==> r == Err::<(), CrowdfundingError>(
                CrowdfundingError::NotInitialized,
            ),
            old(self).admin is Some ==> r is Ok,
            r is Err ==> *final(self) == *old(self),
            r is Ok ==> *final(self) == (CrowdfundingContract {
                emergency_contact: Some(contact),
                ..*old(self)
            }),
    {
        if self.admin.is_none() {
            return Err(CrowdfundingError::NotInitialized);
        }
        self.emergency_contact = Some(contact);
        Ok(())
    }

    /// Whom to reach in an emergency.
    pub fn get_emergency_contact(&self) -> (r: Result<Address, CrowdfundingError>)
        ensures
            match self.emergency_contact {
                Some(c) => r == Ok::<Address, CrowdfundingError>(c),
                None => r == Err::<Address, CrowdfundingError>(CrowdfundingError::NotInitialized),
            },
    {
        match self.emergency_contact {
            Some(c) => Ok(c),
            None => Err(CrowdfundingError::NotInitialized),
        }
    }
}

} // verus!
