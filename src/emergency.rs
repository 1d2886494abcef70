use vstd::prelude::*;

use crate::contract::{error_of, CrowdfundingContract};
use crate::errors::CrowdfundingError;
use crate::reentrancy::{acquire_emergency_lock, release_emergency_lock};
use crate::types::{Address, EmergencyWithdrawal, Transfer};

verus! {

/// Waiting time between requesting and executing an emergency withdrawal:
/// twenty-four hours, in seconds.
pub const EMERGENCY_WINDOW: u64 = 86_400;

impl CrowdfundingContract {
    /// The first check that `request_emergency_withdraw` fails, if any.
    pub open spec fn request_emergency_error(&self, amount: i128) -> Option<CrowdfundingError> {
        if self.admin is None {
            Some(CrowdfundingError::NotInitialized)
        } else if self.emergency is Some {
            Some(CrowdfundingError::EmergencyWithdrawalAlreadyRequested)
        } else {
            None
        }
    }

    /// Starts the waiting period of an emergency withdrawal of `amount` of
    /// `token` to the admin. Only one may be outstanding.
    pub fn request_emergency_withdraw(&mut self, token: Address, amount: i128, now: u64) -> (r:
        Result<(), CrowdfundingError>)
        requires
            old(self).wf(),
        ensures
            final(self).wf(),
            error_of(r) == old(self).request_emergency_error(amount),
            r is Err ==> *final(self) == *old(self),
            r is Ok ==> *final(self) == (CrowdfundingContract {
                emergency: Some(
                    EmergencyWithdrawal {
                        recipient: old(self).admin.unwrap(),
                        amount,
                        token,
                        requested_at: now,
                        executed: false,
                    },
                ),
                ..*old(self)
            }),
    {
        let admin = match self.admin {
            Some(a) => a,
            None => return Err(CrowdfundingError::NotInitialized),
        };
        if self.emergency.is_some() {
            return Err(CrowdfundingError::EmergencyWithdrawalAlreadyRequested);
        }
        self.emergency = Some(
            EmergencyWithdrawal { recipient: admin, amount, token, requested_at: now, executed: false },
        );
        Ok(())
    }

    /// The first check that `execute_emergency_withdraw` fails, if any.
    pub open spec fn execute_emergency_error(&self, now: u64) -> Option<CrowdfundingError> {
        let w = self.emergency.unwrap();
        if self.guard.emergency_locked {
            Some(CrowdfundingError::ReentrancyLocked)
        } else if self.admin is None {
            Some(CrowdfundingError::NotInitialized)
        } else if self.emergency is None {
            Some(CrowdfundingError::EmergencyWithdrawalNotRequested)
        } else if w.executed {
            Some(CrowdfundingError::EmergencyWithdrawalAlreadyRequested)
        } else if now < w.requested_at + EMERGENCY_WINDOW {
            Some(CrowdfundingError::EmergencyWithdrawalPeriodNotPassed)
        } else {
            None
        }
    }

    /// What a successful execution does: the global lock is taken and the
    /// request deleted; nothing else changes.
    pub open spec fn emergency_effect(old: CrowdfundingContract, new: CrowdfundingContract) -> bool {
        &&& new == (CrowdfundingContract { emergency: None, guard: new.guard, ..old })
        &&& new.guard.emergency_locked
        &&& new.guard.pool_locks == old.guard.pool_locks
    }

    /// What releasing the global lock does, and nothing else.
    pub open spec fn emergency_lock_released(
        old: CrowdfundingContract,
        new: CrowdfundingContract,
    ) -> bool {
        &&& new == (CrowdfundingContract { guard: new.guard, ..old })
        &&& !new.guard.emergency_locked
        &&& new.guard.pool_locks == old.guard.pool_locks
    }

    /// First step of the emergency withdrawal, once its waiting period has
    /// passed: takes the global lock, deletes the request and returns the
    /// transfer that pays the admin. The lock stays held until
    /// [`Self::finish_emergency_withdraw`]; a failed call leaves the state as
    /// it was.
    pub fn execute_emergency_withdraw(&mut self, now: u64) -> (r: Result<
        Transfer,
        CrowdfundingError,
    >)
        requires
            old(self).wf(),
        ensures
            final(self).wf(),
            error_of(r) == old(self).execute_emergency_error(now),
            r is Err ==> *final(self) == *old(self),
            r is Ok ==> {
                &&& Self::emergency_effect(*old(self), *final(self))
                &&& r == Ok::<Transfer, CrowdfundingError>(
                    Transfer {
                        asset: old(self).emergency.unwrap().token,
                        from: old(self).contract_address,
                        to: old(self).admin.unwrap(),
                        amount: old(self).emergency.unwrap().amount,
                    },
                )
            },
    {
        if self.guard.emergency_locked {
            return Err(CrowdfundingError::ReentrancyLocked);
        }
        let admin = match self.admin {
            Some(a) => a,
            None => return Err(CrowdfundingError::NotInitialized),
        };
        let w = match self.emergency {
            Some(w) => w,
            None => return Err(CrowdfundingError::EmergencyWithdrawalNotRequested),
        };
        if w.executed {
            return Err(CrowdfundingError::EmergencyWithdrawalAlreadyRequested);
        }
        if w.requested_at > u64::MAX - EMERGENCY_WINDOW || now < w.requested_at + EMERGENCY_WINDOW {
            return Err(CrowdfundingError::EmergencyWithdrawalPeriodNotPassed);
        }
        let acquired = acquire_emergency_lock(&mut self.guard);
        assert(acquired is Ok);
        self.emergency = None;
        Ok(Transfer { asset: w.token, from: self.contract_address, to: admin, amount: w.amount })
    }

    /// Last step of the emergency withdrawal, once its transfer is done:
    /// releases the global lock.
    pub fn finish_emergency_withdraw(&mut self)
        requires
            old(self).wf(),
        ensures
            final(self).wf(),
            Self::emergency_lock_released(*old(self), *final(self)),
    {
        release_emergency_lock(&mut self.guard);
    }

    /// The outstanding emergency withdrawal, if any.
    pub fn get_emergency_withdrawal(&self) -> (r: Option<EmergencyWithdrawal>)
        ensures
            r == self.emergency,
    {
        self.emergency
    }
}

} // verus!
