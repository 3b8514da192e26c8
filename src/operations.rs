use vstd::prelude::*;

use crate::address::Address;
use crate::config::Config;
use crate::error::ErrorCode;
use crate::fee::{compute_fee, fee_cap_for, fee_of, lemma_fee_within_amount, mint_transfer_fee, transfer_fee_cap};
use crate::ledger::{StakeRecord, UserStakeAccount};
use crate::reward::{accrual_weight, accrue, accrued_reward, advanced, is_matured, lemma_reward_drained_by_claim, matured_principal, total_weight};

verus! {

/// The one token transfer that the host performs to complete an operation:
/// `amount` leaves the source, `fee` of it is withheld, and
/// `amount - fee` reaches the destination.
#[derive(Clone, Copy, Debug, PartialEq, Eq, Structural)]
pub struct TransferOrder {
    pub amount: u64,
    pub fee: u64,
    pub decimals: u8,
}

/// The transfer of a gross `amount` under `config`, with its fee capped as
/// the mint whose data gives `lookup` sets for `epoch`.
pub open spec fn transfer_for(
    config: Config,
    amount: u64,
    lookup: Option<Option<(u64, u64, u64)>>,
    epoch: u64,
) -> Result<TransferOrder, ErrorCode> {
    match fee_cap_for(lookup, epoch) {
        Err(e) => Err(e),
        Ok(cap) => Ok(
            TransferOrder {
                amount,
                fee: fee_of(amount as int, config.tax_percentage as int, cap as int) as u64,
                decimals: config.decimals,
            },
        ),
    }
}

fn transfer_order(config: &Config, amount: u64, mint_data: &[u8], current_epoch: u64) -> (r: Result<TransferOrder, ErrorCode>)
    requires
        config.wf(),
    ensures
        r == transfer_for(*config, amount, mint_transfer_fee(mint_data@), current_epoch),
        r matches Ok(t) ==> t.fee <= t.amount,
{
    let cap = match transfer_fee_cap(mint_data, current_epoch) {
        Ok(cap) => cap,
        Err(e) => return Err(e),
    };
    proof {
        lemma_fee_within_amount(amount, config.tax_percentage, cap);
    }
    Ok(TransferOrder { amount, fee: compute_fee(amount, config.tax_percentage, cap), decimals: config.decimals })
}

/// Outcome of depositing `amount` of rewards into the pool.
pub open spec fn deposit_outcome(
    config: Config,
    token_mint: Address,
    lookup: Option<Option<(u64, u64, u64)>>,
    epoch: u64,
    amount: u64,
) -> Result<TransferOrder, ErrorCode> {
    if token_mint@ != config.token_mint_address@ {
        Err(ErrorCode::TokenMintMismatch)
    } else {
        transfer_for(config, amount, lookup, epoch)
    }
}

/// Deposits `amount` of rewards into the pool: the transfer from the
/// depositor to the pool, its fee withheld.
pub fn deposit_rewards(
    config: &Config,
    token_mint: &Address,
    mint_data: &[u8],
    current_epoch: u64,
    amount: u64,
) -> (r: Result<TransferOrder, ErrorCode>)
    requires
        config.wf(),
    ensures
        r == deposit_outcome(*config, *token_mint, mint_transfer_fee(mint_data@), current_epoch, amount),
{
    if !config.token_mint_address.same_as(token_mint) {
        return Err(ErrorCode::TokenMintMismatch);
    }
    transfer_order(config, amount, mint_data, current_epoch)
}

/// Outcome of the administrator withdrawing the whole pool balance.
pub open spec fn withdraw_outcome(
    config: Config,
    caller: Address,
    token_mint: Address,
    lookup: Option<Option<(u64, u64, u64)>>,
    epoch: u64,
    pool_balance: u64,
) -> Result<TransferOrder, ErrorCode> {
    if caller@ != config.authority@ {
        Err(ErrorCode::Unauthorized)
    } else if token_mint@ != config.token_mint_address@ {
        Err(ErrorCode::TokenMintMismatch)
    } else {
        transfer_for(config, pool_balance, lookup, epoch)
    }
}

/// Withdraws the whole pool balance to the administrator. Anyone else is
/// refused, and nothing moves.
pub fn withdraw(
    config: &Config,
    caller: &Address,
    token_mint: &Address,
    mint_data: &[u8],
    current_epoch: u64,
    pool_balance: u64,
) -> (r: Result<TransferOrder, ErrorCode>)
    requires
        config.wf(),
    ensures
        r == withdraw_outcome(*config, *caller, *token_mint, mint_transfer_fee(mint_data@), current_epoch, pool_balance),
        caller@ != config.authority@ ==> r == Err::<TransferOrder, ErrorCode>(ErrorCode::Unauthorized),
{
    if !caller.same_as(&config.authority) {
        return Err(ErrorCode::Unauthorized);
    }
    if !config.token_mint_address.same_as(token_mint) {
        return Err(ErrorCode::TokenMintMismatch);
    }
    transfer_order(config, pool_balance, mint_data, current_epoch)
}

/// Outcome of staking `amount`: the inbound transfer, where the mint is the
/// configured one, its fee schedule can be read and the account has room.
pub open spec fn stake_outcome(
    config: Config,
    account: UserStakeAccount,
    token_mint: Address,
    lookup: Option<Option<(u64, u64, u64)>>,
    epoch: u64,
    amount: u64,
) -> Result<TransferOrder, ErrorCode> {
    if token_mint@ != config.token_mint_address@ {
        Err(ErrorCode::TokenMintMismatch)
    } else {
        match transfer_for(config, amount, lookup, epoch) {
            Err(e) => Err(e),
            Ok(t) => if account.stakes@.len() >= account.capacity {
                Err(ErrorCode::CapacityExceeded)
            } else {
                Ok(t)
            },
        }
    }
}

/// The record that a stake of `amount` at `now` leaves, its inbound fee
/// taken off.
pub open spec fn staked_record(order: TransferOrder, now: i64) -> StakeRecord {
    StakeRecord { amount: (order.amount - order.fee) as u64, timestamp: now }
}

fn stake_into(
    config: &Config,
    account: &mut UserStakeAccount,
    token_mint: &Address,
    mint_data: &[u8],
    current_epoch: u64,
    now: i64,
    amount: u64,
) -> (r: Result<TransferOrder, ErrorCode>)
    requires
        config.wf(),
        old(account).wf(),
    ensures
        r == stake_outcome(*config, *old(account), *token_mint, mint_transfer_fee(mint_data@), current_epoch, amount),
        r is Err ==> *final(account) == *old(account),
        r matches Ok(t) ==> final(account).stakes@ == old(account).stakes@.push(staked_record(t, now))
            && final(account).authority == old(account).authority
            && final(account).capacity == old(account).capacity,
        final(account).wf(),
{
    if !config.token_mint_address.same_as(token_mint) {
        return Err(ErrorCode::TokenMintMismatch);
    }
    let order = match transfer_order(config, amount, mint_data, current_epoch) {
        Ok(t) => t,
        Err(e) => return Err(e),
    };
    match account.append(order.amount - order.fee, now) {
        Ok(()) => Ok(order),
        Err(e) => Err(e),
    }
}

/// Stakes `amount` into a freshly created account of `user`: the transfer
/// from the user to the pool, and a record of the amount net of its fee,
/// accruing from `now`. The account becomes the user's.
pub fn stake(
    config: &Config,
    account: &mut UserStakeAccount,
    user: &Address,
    token_mint: &Address,
    mint_data: &[u8],
    current_epoch: u64,
    now: i64,
    amount: u64,
) -> (r: Result<TransferOrder, ErrorCode>)
    requires
        config.wf(),
        old(account).wf(),
    ensures
        r == stake_outcome(*config, *old(account), *token_mint, mint_transfer_fee(mint_data@), current_epoch, amount),
        r is Err ==> *final(account) == *old(account),
        r matches Ok(t) ==> final(account).stakes@ == old(account).stakes@.push(staked_record(t, now))
            && final(account).authority == *user
            && final(account).capacity == old(account).capacity,
        final(account).wf(),
{
    let r = stake_into(config, account, token_mint, mint_data, current_epoch, now, amount);
    if r.is_ok() {
        account.authority = *user;
    }
    r
}

/// Stakes `amount` into an existing account whose storage was grown to
/// hold another record.
pub fn stake_reallocx(
    config: &Config,
    account: &mut UserStakeAccount,
    token_mint: &Address,
    mint_data: &[u8],
    current_epoch: u64,
    now: i64,
    amount: u64,
) -> (r: Result<TransferOrder, ErrorCode>)
    requires
        config.wf(),
        old(account).wf(),
    ensures
        r == stake_outcome(*config, *old(account), *token_mint, mint_transfer_fee(mint_data@), current_epoch, amount),
        r is Err ==> *final(account) == *old(account),
        r matches Ok(t) ==> final(account).stakes@ == old(account).stakes@.push(staked_record(t, now))
            && final(account).authority == old(account).authority
            && final(account).capacity == old(account).capacity,
        final(account).wf(),
{
    stake_into(config, account, token_mint, mint_data, current_epoch, now, amount)
}

/// Outcome of unstaking at `now`: the matured principal and the reward on
/// it go back to the owner, where the pool covers the reward.
pub open spec fn unstake_outcome(
    config: Config,
    account: UserStakeAccount,
    user: Address,
    token_mint: Address,
    lookup: Option<Option<(u64, u64, u64)>>,
    epoch: u64,
    now: i64,
    pool_balance: u64,
) -> Result<TransferOrder, ErrorCode> {
    let reward = accrued_reward(account.stakes@, now, config.min_stake_period);
    let principal = matured_principal(account.stakes@, now, config.min_stake_period);
    if user@ != account.authority@ {
        Err(ErrorCode::Unauthorized)
    } else if token_mint@ != config.token_mint_address@ {
        Err(ErrorCode::TokenMintMismatch)
    } else if pool_balance < reward {
        Err(ErrorCode::InsufficientRewards)
    } else if principal + reward > u64::MAX {
        Err(ErrorCode::MathOverflow)
    } else {
        transfer_for(config, (principal + reward) as u64, lookup, epoch)
    }
}

/// Unstakes at `now`: pays out the matured principal with its reward, net
/// of the outbound fee, and empties the account. Records that have not
/// matured are dropped with the rest and their principal is not paid out.
pub fn unstake(
    config: &Config,
    account: &mut UserStakeAccount,
    user: &Address,
    token_mint: &Address,
    mint_data: &[u8],
    current_epoch: u64,
    now: i64,
    pool_balance: u64,
) -> (r: Result<TransferOrder, ErrorCode>)
    requires
        config.wf(),
        old(account).wf(),
    ensures
        r == unstake_outcome(*config, *old(account), *user, *token_mint, mint_transfer_fee(mint_data@), current_epoch, now, pool_balance),
        r is Err ==> *final(account) == *old(account),
        r is Ok ==> final(account).stakes@ == Seq::<StakeRecord>::empty()
            && final(account).authority == old(account).authority
            && final(account).capacity == old(account).capacity,
        final(account).wf(),
{
    if !user.same_as(&account.authority) {
        return Err(ErrorCode::Unauthorized);
    }
    if !config.token_mint_address.same_as(token_mint) {
        return Err(ErrorCode::TokenMintMismatch);
    }
    // A reward beyond 64 bits is more than any pool balance can cover.
    let accrual = match accrue(&account.stakes, now, config.min_stake_period) {
        Ok(a) => a,
        Err(_) => return Err(ErrorCode::InsufficientRewards),
    };
    if pool_balance < accrual.reward {
        return Err(ErrorCode::InsufficientRewards);
    }
    if accrual.principal > (u64::MAX - accrual.reward) as u128 {
        return Err(ErrorCode::MathOverflow);
    }
    let total: u64 = accrual.principal as u64 + accrual.reward;
    let order = match transfer_order(config, total, mint_data, current_epoch) {
        Ok(t) => t,
        Err(e) => return Err(e),
    };
    account.clear();
    Ok(order)
}

/// Outcome of claiming at `now`: the reward on the matured records goes to
/// the owner, where the pool covers it.
pub open spec fn claim_outcome(
    config: Config,
    account: UserStakeAccount,
    user: Address,
    token_mint: Address,
    lookup: Option<Option<(u64, u64, u64)>>,
    epoch: u64,
    now: i64,
    pool_balance: u64,
) -> Result<TransferOrder, ErrorCode> {
    let reward = accrued_reward(account.stakes@, now, config.min_stake_period);
    if user@ != account.authority@ {
        Err(ErrorCode::Unauthorized)
    } else if token_mint@ != config.token_mint_address@ {
        Err(ErrorCode::TokenMintMismatch)
    } else if pool_balance < reward {
        Err(ErrorCode::InsufficientRewards)
    } else {
        transfer_for(config, reward as u64, lookup, epoch)
    }
}

/// Claims at `now`: pays out the reward on the matured records, net of the
/// outbound fee, and restarts their accrual at `now`. The principal stays.
pub fn claim_rewards(
    config: &Config,
    account: &mut UserStakeAccount,
    user: &Address,
    token_mint: &Address,
    mint_data: &[u8],
    current_epoch: u64,
    now: i64,
    pool_balance: u64,
) -> (r: Result<TransferOrder, ErrorCode>)
    requires
        config.wf(),
        old(account).wf(),
    ensures
        r == claim_outcome(*config, *old(account), *user, *token_mint, mint_transfer_fee(mint_data@), current_epoch, now, pool_balance),
        r is Err ==> *final(account) == *old(account),
        r is Ok ==> final(account).stakes@ == advanced(old(account).stakes@, now, config.min_stake_period)
            && final(account).authority == old(account).authority
            && final(account).capacity == old(account).capacity,
        final(account).wf(),
{
    if !user.same_as(&account.authority) {
        return Err(ErrorCode::Unauthorized);
    }
    if !config.token_mint_address.same_as(token_mint) {
        return Err(ErrorCode::TokenMintMismatch);
    }
    // A reward beyond 64 bits is more than any pool balance can cover.
    let accrual = match accrue(&account.stakes, now, config.min_stake_period) {
        Ok(a) => a,
        Err(_) => return Err(ErrorCode::InsufficientRewards),
    };
    if pool_balance < accrual.reward {
        return Err(ErrorCode::InsufficientRewards);
    }
    let order = match transfer_order(config, accrual.reward, mint_data, current_epoch) {
        Ok(t) => t,
        Err(e) => return Err(e),
    };
    account.advance_matured(now, config.min_stake_period);
    Ok(order)
}

/// Unstaking at the very instant of a stake earns no reward. With no lock
/// period the net stake comes back whole, less the fee on the way out: the
/// owner receives `amount - fee_in - fee_out`. With a lock period the record
/// has not matured, and nothing is paid out.
pub proof fn lemma_unstake_right_after_stake(
    config: Config,
    account: UserStakeAccount,
    staked: UserStakeAccount,
    user: Address,
    token_mint: Address,
    lookup: Option<Option<(u64, u64, u64)>>,
    epoch: u64,
    now: i64,
    amount: u64,
    pool_balance: u64,
)
    requires
        config.wf(),
        account.stakes@.len() == 0,
        stake_outcome(config, account, token_mint, lookup, epoch, amount) is Ok,
        staked.authority == user,
        staked.stakes@ == account.stakes@.push(
            staked_record(stake_outcome(config, account, token_mint, lookup, epoch, amount)->Ok_0, now),
        ),
    ensures
        accrued_reward(staked.stakes@, now, config.min_stake_period) == 0,
        config.min_stake_period == 0 ==> unstake_outcome(config, staked, user, token_mint, lookup, epoch, now, pool_balance)
            == transfer_for(
            config,
            (amount - stake_outcome(config, account, token_mint, lookup, epoch, amount)->Ok_0.fee) as u64,
            lookup,
            epoch,
        ),
        config.min_stake_period > 0 ==> unstake_outcome(config, staked, user, token_mint, lookup, epoch, now, pool_balance)
            == transfer_for(config, 0, lookup, epoch),
{
    let stake_in = stake_outcome(config, account, token_mint, lookup, epoch, amount)->Ok_0;
    let cap = fee_cap_for(lookup, epoch)->Ok_0;
    lemma_fee_within_amount(amount, config.tax_percentage, cap);
    let rec = staked_record(stake_in, now);
    let s = staked.stakes@;
    assert(s =~= seq![rec]);
    assert(s.drop_last() =~= Seq::<StakeRecord>::empty());
    assert(rec.timestamp == now);
    assert(s.last() == rec);
    assert(total_weight(s.drop_last(), now, config.min_stake_period) == 0);
    assert(accrual_weight(rec, now, config.min_stake_period) == 0) by {
        assert(now - rec.timestamp == 0);
        assert(rec.amount * 0 == 0);
    }
    assert(total_weight(s, now, config.min_stake_period) == 0);
    assert(rec.amount == amount - stake_in.fee);
    assert(matured_principal(s.drop_last(), now, config.min_stake_period) == 0);
    if config.min_stake_period == 0 {
        assert(matured_principal(s, now, config.min_stake_period) == rec.amount);
    } else {
        assert(!is_matured(rec, now, config.min_stake_period));
        assert(matured_principal(s, now, config.min_stake_period) == 0);
    }
    assert(token_mint@ == config.token_mint_address@);
}

/// After a claim at `now`, a second claim at the same instant pays no
/// reward: its transfer is of nothing.
pub proof fn lemma_second_claim_pays_nothing(
    config: Config,
    account: UserStakeAccount,
    claimed: UserStakeAccount,
    user: Address,
    token_mint: Address,
    lookup: Option<Option<(u64, u64, u64)>>,
    epoch: u64,
    now: i64,
    pool_balance: u64,
    pool_balance_after: u64,
)
    requires
        claim_outcome(config, account, user, token_mint, lookup, epoch, now, pool_balance) is Ok,
        claimed.authority == account.authority,
        claimed.stakes@ == advanced(account.stakes@, now, config.min_stake_period),
    ensures
        claim_outcome(config, claimed, user, token_mint, lookup, epoch, now, pool_balance_after)
            == transfer_for(config, 0, lookup, epoch),
{
    lemma_reward_drained_by_claim(account.stakes@, now, config.min_stake_period);
}

/// Where the owner asks, with the configured mint, for a reward that the
/// pool cannot cover, both unstaking and claiming are refused with
/// `InsufficientRewards`; the operations then leave the account as it was.
pub proof fn lemma_short_pool_refused(
    config: Config,
    account: UserStakeAccount,
    user: Address,
    token_mint: Address,
    lookup: Option<Option<(u64, u64, u64)>>,
    epoch: u64,
    now: i64,
    pool_balance: u64,
)
    requires
        user@ == account.authority@,
        token_mint@ == config.token_mint_address@,
        pool_balance < accrued_reward(account.stakes@, now, config.min_stake_period),
    ensures
        unstake_outcome(config, account, user, token_mint, lookup, epoch, now, pool_balance)
            == Err::<TransferOrder, ErrorCode>(ErrorCode::InsufficientRewards),
        claim_outcome(config, account, user, token_mint, lookup, epoch, now, pool_balance)
            == Err::<TransferOrder, ErrorCode>(ErrorCode::InsufficientRewards),
{
}

} // verus!
