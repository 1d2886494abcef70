use vstd::prelude::*;

verus! {

/// Every way in which an operation of the ledger can be refused.
#[derive(Clone, Copy, Debug, PartialEq, Eq, Structural)]
pub enum CrowdfundingError {
    CampaignNotFound,
    InvalidTitle,
    InvalidGoal,
    InvalidDeadline,
    CampaignAlreadyExists,
    PoolNotFound,
    InvalidPoolName,
    InvalidPoolTarget,
    InvalidPoolDeadline,
    PoolAlreadyExists,
    InvalidPoolState,
    InvalidMultiSigConfig,
    NotAuthorizedSigner,
    AlreadyApproved,
    DisbursementNotFound,
    DisbursementAlreadyExecuted,
    InsufficientApprovals,
    SignerAlreadyExists,
    SignerNotFound,
    CannotRemoveLastSigner,
    InvalidSignerCount,
    ContractPaused,
    CampaignsPaused,
    PoolsPaused,
    ContractAlreadyPaused,
    ContractAlreadyUnpaused,
    CampaignsAlreadyPaused,
    CampaignsAlreadyUnpaused,
    PoolsAlreadyPaused,
    PoolsAlreadyUnpaused,
    NotInitialized,
    ContractAlreadyInitialized,
    Unauthorized,
    InvalidFee,
    InvalidFeeBasisPoints,
    InvalidAmount,
    InvalidDonationAmount,
    InsufficientBalance,
    InsufficientFees,
    CampaignExpired,
    CampaignAlreadyFunded,
    CampaignCancelled,
    InvalidGoalUpdate,
    TokenTransferFailed,
    RefundNotAvailable,
    NoContributionToRefund,
    PoolAlreadyClosed,
    PoolNotExpired,
    PoolAlreadyDisbursed,
    PoolNotDisbursedOrRefunded,
    RefundGracePeriodNotPassed,
    InvalidMetadata,
    StringTooLong,
    ReentrancyLocked,
    EmergencyWithdrawalAlreadyRequested,
    EmergencyWithdrawalNotRequested,
    EmergencyWithdrawalPeriodNotPassed,
}

} // verus!
