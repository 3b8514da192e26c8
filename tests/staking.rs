use spl_token_2022::extension::transfer_fee::{TransferFee, TransferFeeConfig};
use spl_token_2022::extension::{BaseStateWithExtensionsMut, ExtensionType, StateWithExtensionsMut};
use spl_token_2022::solana_program::program_option::COption;
use spl_token_2022::solana_program::program_pack::Pack;
use spl_token_2022::state::Mint;
use token_staking::{
    accrue, claim_rewards, compute_fee, deposit_rewards, grown_space, initialize, maximum_fee, record_capacity,
    stake, stake_reallocx, transfer_fee_cap, unstake, update_min_stake_period, withdraw, Address,
    Config, ErrorCode, FeeTiers, StakeRecord, TransferOrder, UserStakeAccount,
};

const DAY: u64 = 86_400;

fn addr(b: u8) -> Address {
    Address::new([b; 32])
}

fn base_mint() -> Mint {
    Mint {
        mint_authority: COption::None,
        supply: 0,
        decimals: 6,
        is_initialized: true,
        freeze_authority: COption::None,
    }
}

fn mint_with_fees(older_max: u64, newer_max: u64, newer_epoch: u64) -> Vec<u8> {
    let len = ExtensionType::try_calculate_account_len::<Mint>(&[ExtensionType::TransferFeeConfig])
        .unwrap();
    let mut data = vec![0u8; len];
    {
        let mut state = StateWithExtensionsMut::<Mint>::unpack_uninitialized(&mut data).unwrap();
        let ext = state.init_extension::<TransferFeeConfig>(true).unwrap();
        ext.older_transfer_fee = TransferFee {
            epoch: 0u64.into(),
            maximum_fee: older_max.into(),
            transfer_fee_basis_points: 200u16.into(),
        };
        ext.newer_transfer_fee = TransferFee {
            epoch: newer_epoch.into(),
            maximum_fee: newer_max.into(),
            transfer_fee_basis_points: 200u16.into(),
        };
        state.base = base_mint();
        state.pack_base();
        state.init_account_type().unwrap();
    }
    data
}

fn mint_without_fees() -> Vec<u8> {
    let mut data = vec![0u8; Mint::LEN];
    Mint::pack(base_mint(), &mut data).unwrap();
    data
}

fn config(min_stake_period: u64) -> Config {
    initialize(addr(1), min_stake_period, addr(9), 6, 2).unwrap()
}

fn account(capacity: usize) -> UserStakeAccount {
    UserStakeAccount::new(addr(0), capacity)
}

#[test]
fn fee_is_rounded_up_percentage() {
    assert_eq!(compute_fee(1_000_000, 2, 50_000), 20_000);
    assert_eq!(compute_fee(402, 2, 50_000), 9);
    assert_eq!(compute_fee(100, 2, 50_000), 2);
    assert_eq!(compute_fee(1, 2, 50_000), 1);
    assert_eq!(compute_fee(0, 2, 50_000), 0);
}

#[test]
fn fee_is_capped() {
    assert_eq!(compute_fee(10_000_000, 2, 50_000), 50_000);
    assert_eq!(compute_fee(u64::MAX, 100, 7), 7);
    assert_eq!(compute_fee(u64::MAX, 100, u64::MAX), u64::MAX);
}

#[test]
fn fee_grows_with_amount_and_stays_under_cap() {
    let mut last = 0;
    for amount in [0u64, 1, 49, 50, 51, 99, 100, 101, 1_000, 2_500_000, 2_500_001, u64::MAX] {
        let fee = compute_fee(amount, 2, 50_000);
        assert!(fee >= last);
        assert!(fee <= 50_000);
        last = fee;
    }
}

#[test]
fn fee_cap_follows_epoch() {
    let tiers = FeeTiers { older_maximum_fee: 10, newer_maximum_fee: 20, newer_epoch: 5 };
    assert_eq!(maximum_fee(&tiers, 4), 10);
    assert_eq!(maximum_fee(&tiers, 5), 20);
    assert_eq!(maximum_fee(&tiers, 6), 20);
}

#[test]
fn fee_cap_read_from_mint() {
    let data = mint_with_fees(10, 20, 5);
    assert_eq!(transfer_fee_cap(&data, 0), Ok(10));
    assert_eq!(transfer_fee_cap(&data, 4), Ok(10));
    assert_eq!(transfer_fee_cap(&data, 5), Ok(20));
}

#[test]
fn mint_without_fee_extension_is_refused() {
    assert_eq!(transfer_fee_cap(&mint_without_fees(), 0), Err(ErrorCode::NoTransferFeeConfig));
}

#[test]
fn malformed_mint_is_refused() {
    assert_eq!(transfer_fee_cap(&[0u8; 10], 0), Err(ErrorCode::InvalidMintAccount));
    assert_eq!(transfer_fee_cap(&vec![0u8; Mint::LEN], 0), Err(ErrorCode::InvalidMintAccount));
}

#[test]
fn initialize_sets_fields() {
    let c = initialize(addr(1), 30, addr(9), 6, 2).unwrap();
    assert!(c.authority.same_as(&addr(1)));
    assert!(c.token_mint_address.same_as(&addr(9)));
    assert_eq!(c.min_stake_period, 30);
    assert_eq!(c.decimals, 6);
    assert_eq!(c.tax_percentage, 2);
    assert!(initialize(addr(1), 30, addr(9), 6, 100).is_ok());
}

#[test]
fn initialize_refuses_tax_over_hundred() {
    assert_eq!(initialize(addr(1), 30, addr(9), 6, 101).err(), Some(ErrorCode::InvalidTaxPercentage));
}

#[test]
fn lock_period_update_by_admin() {
    let mut c = config(DAY);
    assert_eq!(update_min_stake_period(&mut c, &addr(1), 7 * DAY), Ok(()));
    assert_eq!(c.min_stake_period, 7 * DAY);
}

#[test]
fn lock_period_update_by_other_refused() {
    let mut c = config(DAY);
    assert_eq!(update_min_stake_period(&mut c, &addr(2), 7 * DAY), Err(ErrorCode::Unauthorized));
    assert_eq!(c.min_stake_period, DAY);
}

#[test]
fn deposit_transfers_with_fee() {
    let c = config(DAY);
    let data = mint_with_fees(50_000, 50_000, 0);
    assert_eq!(
        deposit_rewards(&c, &addr(9), &data, 3, 1_000_000),
        Ok(TransferOrder { amount: 1_000_000, fee: 20_000, decimals: 6 })
    );
}

#[test]
fn deposit_wrong_mint_refused() {
    let c = config(DAY);
    let data = mint_with_fees(50_000, 50_000, 0);
    assert_eq!(deposit_rewards(&c, &addr(8), &data, 3, 1_000), Err(ErrorCode::TokenMintMismatch));
    assert_eq!(
        deposit_rewards(&c, &addr(9), &mint_without_fees(), 3, 1_000),
        Err(ErrorCode::NoTransferFeeConfig)
    );
}

#[test]
fn withdraw_by_admin_takes_pool() {
    let c = config(DAY);
    let data = mint_with_fees(50_000, 1_000, 10);
    assert_eq!(
        withdraw(&c, &addr(1), &addr(9), &data, 12, 500_000),
        Ok(TransferOrder { amount: 500_000, fee: 1_000, decimals: 6 })
    );
}

#[test]
fn withdraw_by_other_refused() {
    let c = config(DAY);
    let data = mint_with_fees(50_000, 50_000, 0);
    let pool = 500_000u64;
    assert_eq!(withdraw(&c, &addr(2), &addr(9), &data, 0, pool), Err(ErrorCode::Unauthorized));
    assert_eq!(withdraw(&c, &addr(2), &addr(8), &data, 0, pool), Err(ErrorCode::Unauthorized));
    assert_eq!(withdraw(&c, &addr(1), &addr(8), &data, 0, pool), Err(ErrorCode::TokenMintMismatch));
}

#[test]
fn stake_records_net_principal() {
    let c = config(DAY);
    let data = mint_with_fees(50_000, 50_000, 0);
    let mut acc = account(1);
    let order = stake(&c, &mut acc, &addr(4), &addr(9), &data, 0, 0, 1_000_000).unwrap();
    assert_eq!(order, TransferOrder { amount: 1_000_000, fee: 20_000, decimals: 6 });
    assert!(acc.authority.same_as(&addr(4)));
    assert_eq!(acc.stakes, vec![StakeRecord { amount: 980_000, timestamp: 0 }]);
}

#[test]
fn stake_beyond_capacity_refused() {
    let c = config(DAY);
    let data = mint_with_fees(50_000, 50_000, 0);
    let mut acc = account(1);
    stake(&c, &mut acc, &addr(4), &addr(9), &data, 0, 0, 1_000).unwrap();
    assert_eq!(
        stake_reallocx(&c, &mut acc, &addr(9), &data, 0, 5, 1_000),
        Err(ErrorCode::CapacityExceeded)
    );
    assert_eq!(acc.stakes.len(), 1);
    acc.capacity = 2;
    assert!(stake_reallocx(&c, &mut acc, &addr(9), &data, 0, 5, 1_000).is_ok());
    assert_eq!(acc.stakes[1], StakeRecord { amount: 980, timestamp: 5 });
}

#[test]
fn stake_wrong_mint_leaves_account() {
    let c = config(DAY);
    let data = mint_with_fees(50_000, 50_000, 0);
    let mut acc = account(1);
    assert_eq!(stake(&c, &mut acc, &addr(4), &addr(8), &data, 0, 0, 1_000), Err(ErrorCode::TokenMintMismatch));
    assert!(acc.stakes.is_empty());
    assert!(acc.authority.same_as(&addr(0)));
}

#[test]
fn capacity_from_account_space() {
    assert_eq!(record_capacity(60), 1);
    assert_eq!(record_capacity(75), 1);
    assert_eq!(record_capacity(76), 2);
    assert_eq!(record_capacity(44), 0);
    assert_eq!(record_capacity(10), 0);
}

#[test]
fn unstake_immediately_without_lock_returns_net_stake() {
    let c = config(0);
    let data = mint_with_fees(50_000, 50_000, 0);
    let mut acc = account(1);
    let stake_in = stake(&c, &mut acc, &addr(4), &addr(9), &data, 0, 100, 1_000_000).unwrap();
    let out = unstake(&c, &mut acc, &addr(4), &addr(9), &data, 0, 100, 0).unwrap();
    assert_eq!(out.amount, 980_000);
    assert_eq!(out.fee, 19_600);
    assert_eq!(out.amount - out.fee, 1_000_000 - stake_in.fee - out.fee);
    assert!(acc.stakes.is_empty());
}

#[test]
fn unstake_immediately_with_lock_pays_nothing() {
    let c = config(DAY);
    let data = mint_with_fees(50_000, 50_000, 0);
    let mut acc = account(1);
    stake(&c, &mut acc, &addr(4), &addr(9), &data, 0, 100, 1_000_000).unwrap();
    let out = unstake(&c, &mut acc, &addr(4), &addr(9), &data, 0, 100, 1_000).unwrap();
    assert_eq!(out, TransferOrder { amount: 0, fee: 0, decimals: 6 });
    assert!(acc.stakes.is_empty());
}

#[test]
fn unstake_after_lock_pays_principal_and_reward() {
    let c = config(DAY);
    let data = mint_with_fees(50_000, 50_000, 0);
    let mut acc = account(1);
    stake(&c, &mut acc, &addr(4), &addr(9), &data, 0, 0, 1_000_000).unwrap();
    let out = unstake(&c, &mut acc, &addr(4), &addr(9), &data, 0, DAY as i64, 1_000).unwrap();
    assert_eq!(out.amount, 980_402);
    assert_eq!(out.fee, 19_609);
    assert!(acc.stakes.is_empty());
}

#[test]
fn unstake_short_pool_leaves_ledger() {
    let c = config(DAY);
    let data = mint_with_fees(50_000, 50_000, 0);
    let mut acc = account(1);
    stake(&c, &mut acc, &addr(4), &addr(9), &data, 0, 0, 1_000_000).unwrap();
    assert_eq!(
        unstake(&c, &mut acc, &addr(4), &addr(9), &data, 0, DAY as i64, 401),
        Err(ErrorCode::InsufficientRewards)
    );
    assert_eq!(acc.stakes, vec![StakeRecord { amount: 980_000, timestamp: 0 }]);
}

#[test]
fn unstake_by_other_refused() {
    let c = config(DAY);
    let data = mint_with_fees(50_000, 50_000, 0);
    let mut acc = account(1);
    stake(&c, &mut acc, &addr(4), &addr(9), &data, 0, 0, 1_000_000).unwrap();
    assert_eq!(
        unstake(&c, &mut acc, &addr(5), &addr(9), &data, 0, DAY as i64, 1_000),
        Err(ErrorCode::Unauthorized)
    );
    assert_eq!(acc.stakes.len(), 1);
}

#[test]
fn claim_at_maturity_scenario() {
    let c = config(DAY);
    let data = mint_with_fees(50_000, 50_000, 0);
    let mut acc = account(1);
    let stake_in = stake(&c, &mut acc, &addr(4), &addr(9), &data, 0, 0, 1_000_000).unwrap();
    assert_eq!(stake_in.fee, 20_000);
    assert_eq!(acc.stakes[0].amount, 980_000);
    let out = claim_rewards(&c, &mut acc, &addr(4), &addr(9), &data, 0, DAY as i64, 10_000).unwrap();
    assert_eq!(out.amount, 402);
    assert_eq!(out.fee, compute_fee(402, 2, 50_000));
    assert_eq!(out.amount - out.fee, 393);
    assert_eq!(acc.stakes, vec![StakeRecord { amount: 980_000, timestamp: DAY as i64 }]);
}

#[test]
fn second_claim_pays_nothing() {
    let c = config(DAY);
    let data = mint_with_fees(50_000, 50_000, 0);
    let mut acc = account(2);
    stake(&c, &mut acc, &addr(4), &addr(9), &data, 0, 0, 1_000_000).unwrap();
    stake_reallocx(&c, &mut acc, &addr(9), &data, 0, 50_000, 500_000).unwrap();
    let now = 2 * DAY as i64;
    let first = claim_rewards(&c, &mut acc, &addr(4), &addr(9), &data, 0, now, 10_000).unwrap();
    assert!(first.amount > 0);
    let second = claim_rewards(&c, &mut acc, &addr(4), &addr(9), &data, 0, now, 10_000).unwrap();
    assert_eq!(second.amount, 0);
    assert_eq!(second.fee, 0);
}

#[test]
fn claim_leaves_unmatured_records() {
    let c = config(DAY);
    let data = mint_with_fees(50_000, 50_000, 0);
    let mut acc = account(2);
    stake(&c, &mut acc, &addr(4), &addr(9), &data, 0, 0, 1_000_000).unwrap();
    stake_reallocx(&c, &mut acc, &addr(9), &data, 0, 50_000, 500_000).unwrap();
    let now = DAY as i64;
    let out = claim_rewards(&c, &mut acc, &addr(4), &addr(9), &data, 0, now, 10_000).unwrap();
    assert_eq!(out.amount, 402);
    assert_eq!(acc.stakes[0], StakeRecord { amount: 980_000, timestamp: now });
    assert_eq!(acc.stakes[1], StakeRecord { amount: 490_000, timestamp: 50_000 });
}

#[test]
fn claim_short_pool_leaves_ledger() {
    let c = config(DAY);
    let data = mint_with_fees(50_000, 50_000, 0);
    let mut acc = account(1);
    stake(&c, &mut acc, &addr(4), &addr(9), &data, 0, 0, 1_000_000).unwrap();
    assert_eq!(
        claim_rewards(&c, &mut acc, &addr(4), &addr(9), &data, 0, DAY as i64, 100),
        Err(ErrorCode::InsufficientRewards)
    );
    assert_eq!(acc.stakes, vec![StakeRecord { amount: 980_000, timestamp: 0 }]);
}

#[test]
fn claim_fee_config_missing_leaves_ledger() {
    let c = config(DAY);
    let data = mint_with_fees(50_000, 50_000, 0);
    let mut acc = account(1);
    stake(&c, &mut acc, &addr(4), &addr(9), &data, 0, 0, 1_000_000).unwrap();
    assert_eq!(
        claim_rewards(&c, &mut acc, &addr(4), &addr(9), &mint_without_fees(), 0, DAY as i64, 10_000),
        Err(ErrorCode::NoTransferFeeConfig)
    );
    assert_eq!(acc.stakes, vec![StakeRecord { amount: 980_000, timestamp: 0 }]);
}

#[test]
fn accrual_over_a_year() {
    let stakes = vec![
        StakeRecord { amount: 1_000_000, timestamp: 0 },
        StakeRecord { amount: 2_000_000, timestamp: 31_536_000 - 10 },
    ];
    let a = accrue(&stakes, 31_536_000, DAY).unwrap();
    assert_eq!(a.principal, 1_000_000);
    assert_eq!(a.reward, 150_000);
}

#[test]
fn accrual_overflow_is_refused() {
    let stakes = vec![
        StakeRecord { amount: u64::MAX, timestamp: i64::MIN },
        StakeRecord { amount: u64::MAX, timestamp: i64::MIN },
    ];
    assert_eq!(accrue(&stakes, i64::MAX, 0).err(), Some(ErrorCode::MathOverflow));
    let one = vec![StakeRecord { amount: u64::MAX, timestamp: i64::MIN }];
    assert_eq!(accrue(&one, i64::MAX, 0).err(), Some(ErrorCode::MathOverflow));
}

#[test]
fn unstake_total_overflow_is_refused() {
    let c = config(0);
    let data = mint_with_fees(50_000, 50_000, 0);
    let mut acc = account(1);
    acc.stakes.push(StakeRecord { amount: u64::MAX, timestamp: 0 });
    assert_eq!(
        unstake(&c, &mut acc, &addr(0), &addr(9), &data, 0, 210_240_000, u64::MAX),
        Err(ErrorCode::MathOverflow)
    );
    assert_eq!(acc.stakes.len(), 1);
}

#[test]
fn addresses_compare_bytewise() {
    assert!(addr(3).same_as(&addr(3)));
    assert!(!addr(3).same_as(&addr(4)));
    let mut b = [3u8; 32];
    b[31] = 4;
    assert!(!addr(3).same_as(&Address::new(b)));
}

#[test]
fn error_messages() {
    assert_eq!(ErrorCode::Unauthorized.message(), "Unauthorized");
    assert_eq!(
        ErrorCode::InsufficientRewards.message(),
        "Insufficient rewards in the contract account"
    );
}

fn oversized_ledger() -> UserStakeAccount {
    let mut acc = account(2);
    acc.stakes.push(StakeRecord { amount: u64::MAX, timestamp: i64::MIN });
    acc.stakes.push(StakeRecord { amount: u64::MAX, timestamp: i64::MIN });
    acc
}

#[test]
fn unstake_reward_beyond_any_pool_refused() {
    let c = config(0);
    let data = mint_with_fees(50_000, 50_000, 0);
    let mut acc = oversized_ledger();
    assert_eq!(
        unstake(&c, &mut acc, &addr(0), &addr(9), &data, 0, i64::MAX, u64::MAX),
        Err(ErrorCode::InsufficientRewards)
    );
    assert_eq!(acc.stakes.len(), 2);
    assert_eq!(acc.stakes[0], StakeRecord { amount: u64::MAX, timestamp: i64::MIN });
}

#[test]
fn claim_reward_beyond_any_pool_refused() {
    let c = config(0);
    let data = mint_with_fees(50_000, 50_000, 0);
    let mut acc = oversized_ledger();
    assert_eq!(
        claim_rewards(&c, &mut acc, &addr(0), &addr(9), &data, 0, i64::MAX, u64::MAX),
        Err(ErrorCode::InsufficientRewards)
    );
    assert_eq!(acc.stakes[1], StakeRecord { amount: u64::MAX, timestamp: i64::MIN });
}

#[test]
fn growth_adds_room_for_one_record() {
    assert_eq!(grown_space(60), 76);
    assert_eq!(record_capacity(grown_space(60)), 2);
    assert_eq!(record_capacity(grown_space(grown_space(60))), 3);
    assert_eq!(grown_space(usize::MAX - 3), usize::MAX);
}
