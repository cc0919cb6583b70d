use vstd::prelude::*;

verus! {

/// Why an operation was refused.
#[derive(Clone, Copy, Debug, PartialEq, Eq, Structural)]
pub enum ErrorCode {
    ProgramPaused,
    InsufficientDeposit,
    MaxConcurrentSessionsExceeded,
    InvalidSessionStatus,
    MaxRetriesExceeded,
    SessionNotExpired,
    Unauthorized,
    InvalidAmount,
    InvalidLockPeriod,
    InactiveStake,
    InsufficientStake,
    StakeLocked,
    NoRewardsToClaim,
    InsufficientTreasuryFunds,
    InvalidRequestId,
    InvalidRequestStatus,
    InvalidDeploymentStatus,
    InvalidTreasuryWallet,
    InvalidEphemeralKey,
    CalculationOverflow,
    TimeElapsedTooLarge,
    NegativeTimeElapsed,
    InvalidRecoveredFunds,
    LockPeriodTooLong,
    InsufficientPrincipalFunds,
    FeeAmountTooLarge,
    InsufficientLiquidBalance,
    DivisionByZero,
    InvalidWithdrawalRequest,
}

impl ErrorCode {
    /// The text shown for each error.
    pub open spec fn message_text(self) -> Seq<char> {
        match self {
            ErrorCode::ProgramPaused => "Program is currently paused"@,
            ErrorCode::InsufficientDeposit => "Insufficient deposit amount"@,
            ErrorCode::MaxConcurrentSessionsExceeded => "Maximum concurrent sessions exceeded"@,
            ErrorCode::InvalidSessionStatus => "Invalid session status for this operation"@,
            ErrorCode::MaxRetriesExceeded => "Maximum retry attempts exceeded"@,
            ErrorCode::SessionNotExpired => "Session has not expired yet"@,
            ErrorCode::Unauthorized => "Unauthorized access"@,
            ErrorCode::InvalidAmount => "Invalid amount"@,
            ErrorCode::InvalidLockPeriod => "Invalid lock period"@,
            ErrorCode::InactiveStake => "Inactive stake"@,
            ErrorCode::InsufficientStake => "Insufficient stake amount"@,
            ErrorCode::StakeLocked => "Stake is locked"@,
            ErrorCode::NoRewardsToClaim => "No rewards to claim"@,
            ErrorCode::InsufficientTreasuryFunds => "Insufficient treasury funds"@,
            ErrorCode::InvalidRequestId => "Invalid request ID"@,
            ErrorCode::InvalidRequestStatus => "Invalid request status"@,
            ErrorCode::InvalidDeploymentStatus => "Invalid deployment status"@,
            ErrorCode::InvalidTreasuryWallet => "Invalid treasury wallet"@,
            ErrorCode::InvalidEphemeralKey => "Invalid ephemeral key"@,
            ErrorCode::CalculationOverflow => "Calculation overflow"@,
            ErrorCode::TimeElapsedTooLarge => "Time elapsed too large"@,
            ErrorCode::NegativeTimeElapsed => "Negative time elapsed - clock error detected"@,
            ErrorCode::InvalidRecoveredFunds => "Recovered funds exceed deployment cost"@,
            ErrorCode::LockPeriodTooLong => "Lock period exceeds maximum allowed (10 years)"@,
            ErrorCode::InsufficientPrincipalFunds => "Insufficient principal funds in treasury pool"@,
            ErrorCode::FeeAmountTooLarge => "Fee amount exceeds maximum allowed"@,
            ErrorCode::InsufficientLiquidBalance => "Insufficient liquid balance for withdrawal"@,
            ErrorCode::DivisionByZero => "Division by zero - total deposits is zero"@,
            ErrorCode::InvalidWithdrawalRequest => "Invalid withdrawal request"@,
        }
    }

    /// The text shown for this error, as an owned string.
    pub fn message(&self) -> (text: String)
        ensures
            text@ == self.message_text(),
    {
        match self {
            ErrorCode::ProgramPaused => "Program is currently paused".to_owned(),
            ErrorCode::InsufficientDeposit => "Insufficient deposit amount".to_owned(),
            ErrorCode::MaxConcurrentSessionsExceeded => "Maximum concurrent sessions exceeded".to_owned(),
            ErrorCode::InvalidSessionStatus => "Invalid session status for this operation".to_owned(),
            ErrorCode::MaxRetriesExceeded => "Maximum retry attempts exceeded".to_owned(),
            ErrorCode::SessionNotExpired => "Session has not expired yet".to_owned(),
            ErrorCode::Unauthorized => "Unauthorized access".to_owned(),
            ErrorCode::InvalidAmount => "Invalid amount".to_owned(),
            ErrorCode::InvalidLockPeriod => "Invalid lock period".to_owned(),
            ErrorCode::InactiveStake => "Inactive stake".to_owned(),
            ErrorCode::InsufficientStake => "Insufficient stake amount".to_owned(),
            ErrorCode::StakeLocked => "Stake is locked".to_owned(),
            ErrorCode::NoRewardsToClaim => "No rewards to claim".to_owned(),
            ErrorCode::InsufficientTreasuryFunds => "Insufficient treasury funds".to_owned(),
            ErrorCode::InvalidRequestId => "Invalid request ID".to_owned(),
            ErrorCode::InvalidRequestStatus => "Invalid request status".to_owned(),
            ErrorCode::InvalidDeploymentStatus => "Invalid deployment status".to_owned(),
            ErrorCode::InvalidTreasuryWallet => "Invalid treasury wallet".to_owned(),
            ErrorCode::InvalidEphemeralKey => "Invalid ephemeral key".to_owned(),
            ErrorCode::CalculationOverflow => "Calculation overflow".to_owned(),
            ErrorCode::TimeElapsedTooLarge => "Time elapsed too large".to_owned(),
            ErrorCode::NegativeTimeElapsed => "Negative time elapsed - clock error detected".to_owned(),
            ErrorCode::InvalidRecoveredFunds => "Recovered funds exceed deployment cost".to_owned(),
            ErrorCode::LockPeriodTooLong => "Lock period exceeds maximum allowed (10 years)".to_owned(),
            ErrorCode::InsufficientPrincipalFunds => "Insufficient principal funds in treasury pool".to_owned(),
            ErrorCode::FeeAmountTooLarge => "Fee amount exceeds maximum allowed".to_owned(),
            ErrorCode::InsufficientLiquidBalance => "Insufficient liquid balance for withdrawal".to_owned(),
            ErrorCode::DivisionByZero => "Division by zero - total deposits is zero".to_owned(),
            ErrorCode::InvalidWithdrawalRequest => "Invalid withdrawal request".to_owned(),
        }
    }
}

} // verus!
