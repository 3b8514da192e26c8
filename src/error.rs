use vstd::prelude::*;

verus! {

/// Why an operation was refused. A refused operation changes nothing.
#[derive(Clone, Copy, Debug, PartialEq, Eq, Structural)]
pub enum ErrorCode {
    /// The caller is not the authority that the operation requires.
    Unauthorized,
    /// The pool cannot cover the reward that is owed.
    InsufficientRewards,
    /// The mint handed in is not the configured one.
    TokenMintMismatch,
    /// The mint carries no transfer-fee configuration.
    NoTransferFeeConfig,
    /// The mint's account data is not an initialized mint.
    InvalidMintAccount,
    /// The stake account has no room for another record.
    CapacityExceeded,
    /// An amount does not fit in 64 bits.
    MathOverflow,
    /// A tax percentage above one hundred.
    InvalidTaxPercentage,
}

impl ErrorCode {
    /// A short human-readable description.
    pub fn message(&self) -> (r: &'static str) {
        match self {
            ErrorCode::Unauthorized => "Unauthorized",
            ErrorCode::InsufficientRewards => "Insufficient rewards in the contract account",
            ErrorCode::TokenMintMismatch => "The token mint address does not match the config.",
            ErrorCode::NoTransferFeeConfig => "No transfer fee configuration found for this mint.",
            ErrorCode::InvalidMintAccount => "The mint account data could not be read.",
            ErrorCode::CapacityExceeded => "The stake account must be grown before staking again.",
            ErrorCode::MathOverflow => "Amount overflows 64 bits.",
            ErrorCode::InvalidTaxPercentage => "The tax percentage must be at most 100.",
        }
    }
}

} // verus!
