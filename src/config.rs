use vstd::prelude::*;

use crate::address::Address;
use crate::error::ErrorCode;

verus! {

/// The protocol's configuration: who administers it, how long a stake must
/// stay locked before it matures, and which mint it handles.
#[derive(Clone, Copy, Debug)]
pub struct Config {
    /// The administrator.
    pub authority: Address,
    /// The lock period, in seconds, after which a stake record matures.
    pub min_stake_period: u64,
    /// The mint of the staked token.
    pub token_mint_address: Address,
    /// The mint's decimals, handed on with each transfer.
    pub decimals: u8,
    /// The transfer tax, in whole percent.
    pub tax_percentage: u8,
}

impl Config {
    pub open spec fn wf(&self) -> bool {
        self.tax_percentage <= 100
    }
}

/// Creates the configuration, refusing a tax percentage above one hundred.
pub fn initialize(
    authority: Address,
    min_stake_period: u64,
    token_mint: Address,
    decimals: u8,
    tax_percentage: u8,
) -> (r: Result<Config, ErrorCode>)
    ensures
        tax_percentage > 100 ==> r == Err::<Config, ErrorCode>(ErrorCode::InvalidTaxPercentage),
        tax_percentage <= 100 ==> r == Ok::<Config, ErrorCode>(
            Config {
                authority,
                min_stake_period,
                token_mint_address: token_mint,
                decimals,
                tax_percentage,
            },
        ),
        r matches Ok(c) ==> c.wf(),
{
    if tax_percentage > 100 {
        return Err(ErrorCode::InvalidTaxPercentage);
    }
    Ok(Config { authority, min_stake_period, token_mint_address: token_mint, decimals, tax_percentage })
}

/// Sets the lock period; only the administrator may.
pub fn update_min_stake_period(config: &mut Config, caller: &Address, min_stake_period: u64) -> (r: Result<(), ErrorCode>)
    ensures
        caller@ != old(config).authority@ ==> r == Err::<(), ErrorCode>(ErrorCode::Unauthorized)
            && *final(config) == *old(config),
        caller@ == old(config).authority@ ==> r == Ok::<(), ErrorCode>(())
            && *final(config) == (Config { min_stake_period, ..*old(config) }),
{
    if !caller.same_as(&config.authority) {
        return Err(ErrorCode::Unauthorized);
    }
    config.min_stake_period = min_stake_period;
    Ok(())
}

} // verus!
