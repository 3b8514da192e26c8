use spl_token_2022::extension::transfer_fee::TransferFeeConfig;
use spl_token_2022::extension::{BaseStateWithExtensions, StateWithExtensions};
use vstd::prelude::*;

use crate::error::ErrorCode;

verus! {

/// The two-entry schedule of maximum transfer fees that a mint carries:
/// the older cap applies before `newer_epoch`, the newer one from it on.
#[derive(Clone, Copy, Debug)]
pub struct FeeTiers {
    pub older_maximum_fee: u64,
    pub newer_maximum_fee: u64,
    pub newer_epoch: u64,
}

impl FeeTiers {
    /// The cap in force during `epoch`.
    pub open spec fn cap_at(self, epoch: u64) -> u64 {
        if epoch < self.newer_epoch {
            self.older_maximum_fee
        } else {
            self.newer_maximum_fee
        }
    }
}

/// The fee-cap schedule that the mint account data `data` holds, as
/// `(older maximum fee, newer maximum fee, newer epoch)`: `None` where the
/// data does not unpack as an initialized mint with a well-formed extension
/// area, `Some(None)` where no transfer-fee extension can be read from it.
pub uninterp spec fn mint_transfer_fee(data: Seq<u8>) -> Option<Option<(u64, u64, u64)>>;

pub open spec fn tiers_of(t: (u64, u64, u64)) -> FeeTiers {
    FeeTiers { older_maximum_fee: t.0, newer_maximum_fee: t.1, newer_epoch: t.2 }
}

pub open spec fn lookup_tiers(lookup: Option<Option<(u64, u64, u64)>>) -> Option<Option<FeeTiers>> {
    match lookup {
        None => None,
        Some(None) => Some(None),
        Some(Some(t)) => Some(Some(tiers_of(t))),
    }
}

/// The cap on the transfer fee for a mint whose data gives `lookup`, during
/// `epoch`, or why there is none.
pub open spec fn fee_cap_for(lookup: Option<Option<(u64, u64, u64)>>, epoch: u64) -> Result<u64, ErrorCode> {
    match lookup {
        None => Err(ErrorCode::InvalidMintAccount),
        Some(None) => Err(ErrorCode::NoTransferFeeConfig),
        Some(Some(t)) => Ok(tiers_of(t).cap_at(epoch)),
    }
}

/// `ceil(amount * rate / 100)`.
pub open spec fn ceil_percent(amount: int, rate: int) -> int {
    let x = amount * rate;
    if x % 100 == 0 {
        x / 100
    } else {
        x / 100 + 1
    }
}

/// The fee charged on a gross `amount`: `rate` percent, rounded up, and
/// never more than `cap`.
pub open spec fn fee_of(amount: int, rate: int, cap: int) -> int {
    let raw = ceil_percent(amount, rate);
    if raw <= cap {
        raw
    } else {
        cap
    }
}

/// Relies on spl-token-2022's `StateWithExtensions::<Mint>::unpack` (reads the
/// mint's base state and locates its extension data) and
/// `get_extension::<TransferFeeConfig>` (finds the transfer-fee extension):
/// the caps and the epoch are read from the data alone.
#[verifier::external_body]
fn read_transfer_fee_tiers(mint_data: &[u8]) -> (r: Option<Option<FeeTiers>>)
    ensures
        r == lookup_tiers(mint_transfer_fee(mint_data@)),
{
    let state = match StateWithExtensions::<spl_token_2022::state::Mint>::unpack(mint_data) {
        Ok(state) => state,
        Err(_) => return None,
    };
    match state.get_extension::<TransferFeeConfig>() {
        Ok(c) => Some(Some(FeeTiers {
            older_maximum_fee: u64::from(c.older_transfer_fee.maximum_fee),
            newer_maximum_fee: u64::from(c.newer_transfer_fee.maximum_fee),
            newer_epoch: u64::from(c.newer_transfer_fee.epoch),
        })),
        Err(_) => Some(None),
    }
}

/// The cap in force during `current_epoch`.
pub fn maximum_fee(tiers: &FeeTiers, current_epoch: u64) -> (r: u64)
    ensures
        r == tiers.cap_at(current_epoch),
{
    if current_epoch < tiers.newer_epoch {
        tiers.older_maximum_fee
    } else {
        tiers.newer_maximum_fee
    }
}

/// The fee cap that the mint with account data `mint_data` sets for
/// `current_epoch`.
pub fn transfer_fee_cap(mint_data: &[u8], current_epoch: u64) -> (r: Result<u64, ErrorCode>)
    ensures
        r == fee_cap_for(mint_transfer_fee(mint_data@), current_epoch),
{
    match read_transfer_fee_tiers(mint_data) {
        None => Err(ErrorCode::InvalidMintAccount),
        Some(None) => Err(ErrorCode::NoTransferFeeConfig),
        Some(Some(tiers)) => Ok(maximum_fee(&tiers, current_epoch)),
    }
}

/// The fee on a gross `amount` at `tax_percentage` percent, rounded up and
/// capped by `maximum_fee`.
pub fn compute_fee(amount: u64, tax_percentage: u8, maximum_fee: u64) -> (r: u64)
    ensures
        r == fee_of(amount as int, tax_percentage as int, maximum_fee as int),
{
    assert(amount as int * tax_percentage as int <= 0xffff_ffff_ffff_ffffu64 as int * 255) by (nonlinear_arith)
        requires
            amount <= 0xffff_ffff_ffff_ffffu64,
            tax_percentage <= 255,
    ;
    let scaled: u128 = amount as u128 * tax_percentage as u128;
    let raw: u128 = (scaled + 99) / 100;
    assert(raw == ceil_percent(amount as int, tax_percentage as int)) by {
        let x = scaled as int;
        assert(x == amount as int * tax_percentage as int);
        assert((x + 99) / 100 == if x % 100 == 0 { x / 100 } else { x / 100 + 1 });
    }
    if raw <= maximum_fee as u128 {
        raw as u64
    } else {
        maximum_fee
    }
}

/// The fee never exceeds the cap, and it never falls when the amount grows.
pub proof fn lemma_fee_monotonic_and_capped(small: u64, large: u64, tax_percentage: u8, cap: u64)
    requires
        small <= large,
        tax_percentage <= 100,
    ensures
        fee_of(small as int, tax_percentage as int, cap as int) <= fee_of(large as int, tax_percentage as int, cap as int),
        fee_of(small as int, tax_percentage as int, cap as int) <= cap,
        fee_of(large as int, tax_percentage as int, cap as int) <= cap,
{
    lemma_ceil_percent_monotonic(small as int, large as int, tax_percentage as int);
}

proof fn lemma_ceil_percent_monotonic(a: int, b: int, rate: int)
    requires
        0 <= a <= b,
        0 <= rate,
    ensures
        ceil_percent(a, rate) <= ceil_percent(b, rate),
{
    assert(a * rate <= b * rate) by (nonlinear_arith)
        requires
            0 <= a <= b,
            0 <= rate,
    ;
    let x = a * rate;
    let y = b * rate;
    assert((x + 99) / 100 == ceil_percent(a, rate));
    assert((y + 99) / 100 == ceil_percent(b, rate));
    vstd::arithmetic::div_mod::lemma_div_is_ordered(x + 99, y + 99, 100);
}

/// At a rate of at most one hundred percent the fee never exceeds the amount.
pub proof fn lemma_fee_within_amount(amount: u64, tax_percentage: u8, cap: u64)
    requires
        tax_percentage <= 100,
    ensures
        0 <= fee_of(amount as int, tax_percentage as int, cap as int) <= amount,
{
    assert(0 <= amount as int * tax_percentage as int <= amount as int * 100) by (nonlinear_arith)
        requires
            tax_percentage <= 100,
    ;
    lemma_ceil_percent_monotonic(0, amount as int, tax_percentage as int);
    assert(ceil_percent(amount as int, 100) == amount);
    lemma_ceil_percent_rate_monotonic(amount as int, tax_percentage as int, 100);
}

proof fn lemma_ceil_percent_rate_monotonic(a: int, r1: int, r2: int)
    requires
        0 <= a,
        0 <= r1 <= r2,
    ensures
        ceil_percent(a, r1) <= ceil_percent(a, r2),
{
    assert(a * r1 <= a * r2) by (nonlinear_arith)
        requires
            0 <= a,
            0 <= r1 <= r2,
    ;
    assert((a * r1 + 99) / 100 == ceil_percent(a, r1));
    assert((a * r2 + 99) / 100 == ceil_percent(a, r2));
    vstd::arithmetic::div_mod::lemma_div_is_ordered(a * r1 + 99, a * r2 + 99, 100);
}

} // verus!
