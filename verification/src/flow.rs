//! The lease-flow contract: lease lifecycle with dunning, escrowed deposits,
//! arrears deduction and creation rate limiting.
use vstd::prelude::*;

pub mod iteration_limits;
pub mod lease_creation_rate_limit;
pub mod escrow;
pub mod transitions;

verus! {

/// Errors of the lease-flow contract.
#[derive(Copy, Clone, Debug, Eq, PartialEq, Structural)]
pub enum Error {
    InsufficientRentFunds,
    LeaseNotFound,
    InvalidStateTransition,
    Unauthorized,
    GracePeriodExpired,
    InsufficientDeposit,
    InvalidAmount,
    LeaseAlreadyActive,
    LeaseNotActive,
    EvictionAlreadyPending,
    LateFeeCalculationError,
    ArrearsAlreadyProcessed,
    EscrowVaultUnderflow,
    CreditRecordError,
    OracleDataStale,
    OraclePriceManipulation,
    VolatilityCircuitBreaker,
    OracleCallFailed,
    InvalidFiatPegConfig,
    RateLimitExceeded,
    UserLeasesLimitExceeded,
    AssociatedLeaseIdsLimitExceeded,
}

/// The contract error code of each error.
pub open spec fn error_code(e: Error) -> u32 {
    match e {
        Error::InsufficientRentFunds => 1,
        Error::LeaseNotFound => 2,
        Error::InvalidStateTransition => 3,
        Error::Unauthorized => 4,
        Error::GracePeriodExpired => 5,
        Error::InsufficientDeposit => 6,
        Error::InvalidAmount => 7,
        Error::LeaseAlreadyActive => 8,
        Error::LeaseNotActive => 9,
        Error::EvictionAlreadyPending => 10,
        Error::LateFeeCalculationError => 11,
        Error::ArrearsAlreadyProcessed => 12,
        Error::EscrowVaultUnderflow => 13,
        Error::CreditRecordError => 14,
        Error::OracleDataStale => 15,
        Error::OraclePriceManipulation => 16,
        Error::VolatilityCircuitBreaker => 17,
        Error::OracleCallFailed => 18,
        Error::InvalidFiatPegConfig => 19,
        Error::RateLimitExceeded => 20,
        Error::UserLeasesLimitExceeded => 21,
        Error::AssociatedLeaseIdsLimitExceeded => 22,
    }
}

impl Error {
    /// The contract error code.
    pub fn code(&self) -> (c: u32)
        ensures
            c == error_code(*self),
    {
        match self {
            Error::InsufficientRentFunds => 1,
            Error::LeaseNotFound => 2,
            Error::InvalidStateTransition => 3,
            Error::Unauthorized => 4,
            Error::GracePeriodExpired => 5,
            Error::InsufficientDeposit => 6,
            Error::InvalidAmount => 7,
            Error::LeaseAlreadyActive => 8,
            Error::LeaseNotActive => 9,
            Error::EvictionAlreadyPending => 10,
            Error::LateFeeCalculationError => 11,
            Error::ArrearsAlreadyProcessed => 12,
            Error::EscrowVaultUnderflow => 13,
            Error::CreditRecordError => 14,
            Error::OracleDataStale => 15,
            Error::OraclePriceManipulation => 16,
            Error::VolatilityCircuitBreaker => 17,
            Error::OracleCallFailed => 18,
            Error::InvalidFiatPegConfig => 19,
            Error::RateLimitExceeded => 20,
            Error::UserLeasesLimitExceeded => 21,
            Error::AssociatedLeaseIdsLimitExceeded => 22,
        }
    }
}

} // verus!
