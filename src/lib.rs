//! Custody and disbursement ledger for crowdfunding campaigns and pools.
//!
//! The whole state is one value, [`contract::CrowdfundingContract`], that
//! every operation takes explicitly. Operations validate first and change
//! nothing when they fail; an operation that moves funds records its effects
//! and returns the [`types::Transfer`] that the host must carry out
//! afterwards. Refunds from pools and the emergency withdrawal hold a lock
//! from their first step until the host reports the transfer done
//! (`finish_refund`, `finish_emergency_withdraw`), so that a call re-entering
//! in between finds the lock held and the balance already zero.
//!
//! Authorisation, the clock and the transfers themselves belong to the host:
//! the caller of an operation is assumed to have been authorised, and the
//! current time is passed in as `now`.

pub mod admin;
pub mod campaign;
pub mod contract;
pub mod disbursement;
pub mod emergency;
pub mod errors;
pub mod fees;
pub mod laws;
pub mod pool;
pub mod reentrancy;
pub mod types;
