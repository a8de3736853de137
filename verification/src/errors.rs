//! The stable error codes shared by every contract of the suite.
use vstd::prelude::*;

verus! {

/// Stable error codes shared by every contract; 700-720 are payment errors,
/// 900-920 upgrade errors.
#[derive(Clone, Copy, Debug, PartialEq, Eq, Structural)]
pub enum Error {
    Unauthorized,
    NotFound,
    InvalidAmount,
    Overflow,
    ContractPaused,
    Expired,
    AlreadyClaimed,
    InsufficientBalance,
    WithdrawalLimitExceeded,
    InvalidArgument,
    NotPaused,
    ProposalNotFound,
    AlreadyApproved,
    BelowThreshold,
    AlreadyExecuted,
    ImmutableEntry,
    InvalidHash,
    MetadataNotFound,
    AlreadyInitialized,
    ContractNotRegistered,
    ContractAlreadyRegistered,
    NoChangeDetected,
    UpgradeProposalNotFound,
    UpgradeAlreadyExecuted,
    MigrationHookFailed,
    UpgradeAlreadyPending,
    NotUpgrader,
    InvalidWasmHash,
    StorageIncompatible,
    InvalidMigrationHook,
    PaymentInvalidAmount,
    PaymentInsufficientBalance,
    PaymentEscrowNotFound,
    PaymentEscrowAlreadyReleased,
    PaymentEscrowAlreadyRefunded,
    PaymentEscrowUnauthorized,
    PaymentEscrowExpired,
    PaymentEscrowNotExpired,
    PaymentInvalidFeeRate,
    PaymentFeeOverflow,
    PaymentEscrowIdOverflow,
}

impl Error {
    /// The numeric code under which the error is reported.
    pub open spec fn spec_code(&self) -> u32 {
        match self {
            Error::Unauthorized => 1,
            Error::NotFound => 2,
            Error::InvalidAmount => 3,
            Error::Overflow => 4,
            Error::ContractPaused => 5,
            Error::Expired => 6,
            Error::AlreadyClaimed => 7,
            Error::InsufficientBalance => 8,
            Error::WithdrawalLimitExceeded => 9,
            Error::InvalidArgument => 10,
            Error::NotPaused => 11,
            Error::ProposalNotFound => 12,
            Error::AlreadyApproved => 13,
            Error::BelowThreshold => 14,
            Error::AlreadyExecuted => 15,
            Error::ImmutableEntry => 16,
            Error::InvalidHash => 17,
            Error::MetadataNotFound => 18,
            Error::AlreadyInitialized => 19,
            Error::ContractNotRegistered => 900,
            Error::ContractAlreadyRegistered => 901,
            Error::NoChangeDetected => 902,
            Error::UpgradeProposalNotFound => 903,
            Error::UpgradeAlreadyExecuted => 904,
            Error::MigrationHookFailed => 905,
            Error::UpgradeAlreadyPending => 906,
            Error::NotUpgrader => 907,
            Error::InvalidWasmHash => 908,
            Error::StorageIncompatible => 909,
            Error::InvalidMigrationHook => 910,
            Error::PaymentInvalidAmount => 700,
            Error::PaymentInsufficientBalance => 701,
            Error::PaymentEscrowNotFound => 702,
            Error::PaymentEscrowAlreadyReleased => 703,
            Error::PaymentEscrowAlreadyRefunded => 704,
            Error::PaymentEscrowUnauthorized => 705,
            Error::PaymentEscrowExpired => 706,
            Error::PaymentEscrowNotExpired => 707,
            Error::PaymentInvalidFeeRate => 708,
            Error::PaymentFeeOverflow => 709,
            Error::PaymentEscrowIdOverflow => 710,
        }
    }

    /// The numeric code under which the error is reported.
    pub fn code(&self) -> (c: u32)
        ensures
            c == self.spec_code(),
    {
        match self {
            Error::Unauthorized => 1,
            Error::NotFound => 2,
            Error::InvalidAmount => 3,
            Error::Overflow => 4,
            Error::ContractPaused => 5,
            Error::Expired => 6,
            Error::AlreadyClaimed => 7,
            Error::InsufficientBalance => 8,
            Error::WithdrawalLimitExceeded => 9,
            Error::InvalidArgument => 10,
            Error::NotPaused => 11,
            Error::ProposalNotFound => 12,
            Error::AlreadyApproved => 13,
            Error::BelowThreshold => 14,
            Error::AlreadyExecuted => 15,
            Error::ImmutableEntry => 16,
            Error::InvalidHash => 17,
            Error::MetadataNotFound => 18,
            Error::AlreadyInitialized => 19,
            Error::ContractNotRegistered => 900,
            Error::ContractAlreadyRegistered => 901,
            Error::NoChangeDetected => 902,
            Error::UpgradeProposalNotFound => 903,
            Error::UpgradeAlreadyExecuted => 904,
            Error::MigrationHookFailed => 905,
            Error::UpgradeAlreadyPending => 906,
            Error::NotUpgrader => 907,
            Error::InvalidWasmHash => 908,
            Error::StorageIncompatible => 909,
            Error::InvalidMigrationHook => 910,
            Error::PaymentInvalidAmount => 700,
            Error::PaymentInsufficientBalance => 701,
            Error::PaymentEscrowNotFound => 702,
            Error::PaymentEscrowAlreadyReleased => 703,
            Error::PaymentEscrowAlreadyRefunded => 704,
            Error::PaymentEscrowUnauthorized => 705,
            Error::PaymentEscrowExpired => 706,
            Error::PaymentEscrowNotExpired => 707,
            Error::PaymentInvalidFeeRate => 708,
            Error::PaymentFeeOverflow => 709,
            Error::PaymentEscrowIdOverflow => 710,
        }
    }
}

} // verus!
