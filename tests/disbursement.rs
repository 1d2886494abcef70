use crowdfunding::contract::CrowdfundingContract;
use crowdfunding::errors::CrowdfundingError;
use crowdfunding::types::{PoolMetadata, Transfer};

const CONTRACT: u64 = 1_000;
const ADMIN: u64 = 1;
const TOKEN: u64 = 900;
const CREATOR: u64 = 10;

fn setup(required: Option<u32>, signers: Option<Vec<u64>>) -> (CrowdfundingContract, u64) {
    let mut c = CrowdfundingContract::new(CONTRACT);
    c.initialize(ADMIN, TOKEN, 0).unwrap();
    let meta = PoolMetadata { description: Vec::new(), external_url: Vec::new(), image_hash: Vec::new() };
    let pool_id = c.save_pool(b"Pool".to_vec(), meta, CREATOR, 10_000, 100, required, signers, 0).unwrap();
    (c, pool_id)
}

#[test]
fn two_of_three_needs_two_approvals_and_executes_once() {
    let (mut c, pool) = setup(Some(2), Some(vec![21, 22, 23]));
    let id = c.request_disbursement(pool, 500, 77, 21, 5).unwrap();
    assert_eq!(id, 1);
    c.approve_disbursement(pool, id, 21).unwrap();
    assert_eq!(c.execute_disbursement(pool, id), Err(CrowdfundingError::InsufficientApprovals));
    assert_eq!(c.approve_disbursement(pool, id, 21), Err(CrowdfundingError::AlreadyApproved));
    c.approve_disbursement(pool, id, 22).unwrap();
    assert_eq!(
        c.execute_disbursement(pool, id),
        Ok(Transfer { asset: TOKEN, from: CONTRACT, to: 77, amount: 500 })
    );
    assert!(c.get_disbursement(pool, id).unwrap().executed);
    assert_eq!(c.execute_disbursement(pool, id), Err(CrowdfundingError::DisbursementAlreadyExecuted));
    assert_eq!(c.approve_disbursement(pool, id, 23), Err(CrowdfundingError::DisbursementAlreadyExecuted));
}

#[test]
fn requests_are_numbered_per_pool_and_gated_by_signers() {
    let (mut c, pool) = setup(Some(1), Some(vec![21]));
    assert_eq!(c.request_disbursement(pool, 5, 77, 99, 0), Err(CrowdfundingError::NotAuthorizedSigner));
    assert_eq!(c.request_disbursement(pool, 0, 77, 21, 0), Err(CrowdfundingError::InvalidAmount));
    assert_eq!(c.request_disbursement(9, 5, 77, 21, 0), Err(CrowdfundingError::PoolNotFound));
    assert_eq!(c.request_disbursement(pool, 5, 77, CREATOR, 0), Ok(1));
    assert_eq!(c.request_disbursement(pool, 6, 78, 21, 0), Ok(2));
    assert_eq!(c.approve_disbursement(pool, 3, 21), Err(CrowdfundingError::DisbursementNotFound));
    assert_eq!(c.approve_disbursement(pool, 1, 99), Err(CrowdfundingError::NotAuthorizedSigner));
    assert_eq!(c.execute_disbursement(pool, 3), Err(CrowdfundingError::DisbursementNotFound));
    assert!(c.get_disbursement(pool, 3).is_none());
}

#[test]
fn without_configuration_one_approval_suffices() {
    let (mut c, pool) = setup(None, None);
    let id = c.request_disbursement(pool, 5, 77, CREATOR, 0).unwrap();
    assert_eq!(c.execute_disbursement(pool, id), Err(CrowdfundingError::InsufficientApprovals));
    c.approve_disbursement(pool, id, CREATOR).unwrap();
    assert!(c.execute_disbursement(pool, id).is_ok());
}

#[test]
fn signer_roster_management() {
    let (mut c, pool) = setup(Some(2), Some(vec![21, 22]));
    assert_eq!(c.add_signer(pool, 23, 21), Err(CrowdfundingError::Unauthorized));
    assert_eq!(c.add_signer(pool, 21, CREATOR), Err(CrowdfundingError::SignerAlreadyExists));
    c.add_signer(pool, 23, CREATOR).unwrap();
    assert_eq!(c.remove_signer(pool, 99, CREATOR), Err(CrowdfundingError::SignerNotFound));
    c.remove_signer(pool, 21, CREATOR).unwrap();
    c.remove_signer(pool, 22, CREATOR).unwrap();
    let m = c.pools[0].multi_sig.as_ref().unwrap();
    assert_eq!(m.signers, vec![23]);
    assert_eq!(m.required_signatures, 1);
    assert_eq!(c.remove_signer(pool, 23, CREATOR), Err(CrowdfundingError::CannotRemoveLastSigner));
}

#[test]
fn adding_a_signer_to_a_pool_without_configuration() {
    let (mut c, pool) = setup(None, None);
    assert_eq!(c.remove_signer(pool, 21, CREATOR), Err(CrowdfundingError::SignerNotFound));
    c.add_signer(pool, 21, CREATOR).unwrap();
    let m = c.pools[0].multi_sig.as_ref().unwrap();
    assert_eq!(m.signers, vec![21]);
    assert_eq!(m.required_signatures, 1);
}

#[test]
fn emergency_withdrawal_waits_a_day_and_runs_once() {
    let mut c = CrowdfundingContract::new(CONTRACT);
    assert_eq!(c.request_emergency_withdraw(TOKEN, 100_000, 0), Err(CrowdfundingError::NotInitialized));
    c.initialize(ADMIN, TOKEN, 0).unwrap();
    c.request_emergency_withdraw(TOKEN, 100_000, 0).unwrap();
    assert_eq!(
        c.execute_emergency_withdraw(86_399),
        Err(CrowdfundingError::EmergencyWithdrawalPeriodNotPassed)
    );
    let paid = c.execute_emergency_withdraw(86_401).unwrap();
    assert_eq!(paid, Transfer { asset: TOKEN, from: CONTRACT, to: ADMIN, amount: 100_000 });
    assert!(c.guard.emergency_locked);
    assert_eq!(c.execute_emergency_withdraw(86_402), Err(CrowdfundingError::ReentrancyLocked));
    c.finish_emergency_withdraw();
    assert!(!c.guard.emergency_locked);
    assert_eq!(
        c.execute_emergency_withdraw(86_402),
        Err(CrowdfundingError::EmergencyWithdrawalNotRequested)
    );
}

#[test]
fn test_emergency_withdraw_cannot_execute_twice() {
    let mut c = CrowdfundingContract::new(CONTRACT);
    c.initialize(ADMIN, TOKEN, 0).unwrap();
    c.request_emergency_withdraw(TOKEN, 100_000, 0).unwrap();
    let first = c.execute_emergency_withdraw(86_401);
    assert!(first.is_ok(), "first execute must succeed");
    c.finish_emergency_withdraw();
    let second = c.execute_emergency_withdraw(86_401);
    assert_eq!(second, Err(CrowdfundingError::EmergencyWithdrawalNotRequested));
}

#[test]
fn test_emergency_withdraw_cannot_request_twice() {
    let mut c = CrowdfundingContract::new(CONTRACT);
    c.initialize(ADMIN, TOKEN, 0).unwrap();
    c.request_emergency_withdraw(TOKEN, 100_000, 0).unwrap();
    let second = c.request_emergency_withdraw(TOKEN, 100_000, 0);
    assert_eq!(second, Err(CrowdfundingError::EmergencyWithdrawalAlreadyRequested));
}

#[test]
fn test_emergency_withdraw_blocked_before_grace_period() {
    let mut c = CrowdfundingContract::new(CONTRACT);
    c.initialize(ADMIN, TOKEN, 0).unwrap();
    c.request_emergency_withdraw(TOKEN, 100_000, 0).unwrap();
    assert_eq!(
        c.execute_emergency_withdraw(86_399),
        Err(CrowdfundingError::EmergencyWithdrawalPeriodNotPassed)
    );
}

#[test]
fn emergency_request_accepts_any_amount() {
    let mut c = CrowdfundingContract::new(CONTRACT);
    c.initialize(ADMIN, TOKEN, 0).unwrap();
    c.request_emergency_withdraw(TOKEN, 0, 10).unwrap();
    assert_eq!(c.get_emergency_withdrawal().unwrap().amount, 0);
}
