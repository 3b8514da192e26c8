//! A staking ledger with time-weighted rewards and capped transfer fees.
//!
//! The library decides; the host moves tokens. Each operation checks the
//! caller and the mint, reads the fee schedule from the mint's account data,
//! updates the configuration or the stake ledger, and hands back the one
//! transfer that the host must perform for the operation to take effect.
pub mod address;
pub mod config;
pub mod error;
pub mod fee;
pub mod ledger;
pub mod operations;
pub mod reward;

pub use address::Address;
pub use config::{initialize, update_min_stake_period, Config};
pub use error::ErrorCode;
pub use fee::{compute_fee, maximum_fee, transfer_fee_cap, FeeTiers};
pub use ledger::{grown_space, record_capacity, StakeRecord, UserStakeAccount};
pub use reward::{accrue, Accrual};
pub use operations::{
    claim_rewards, deposit_rewards, stake, stake_reallocx, unstake, withdraw, TransferOrder,
};
