use vstd::prelude::*;

use crate::error::ErrorCode;
use crate::ledger::{StakeRecord, UserStakeAccount};

verus! {

/// Rewards accrue at 15% a year of 365 days, simple interest:
/// `principal * 0.15 * seconds / 31_536_000`, that is
/// `principal * seconds / 210_240_000`.
pub const REWARD_DIVISOR: u128 = 210_240_000;

/// A record is matured once `min_stake_period` seconds have passed since
/// its timestamp.
pub open spec fn is_matured(r: StakeRecord, now: i64, min_stake_period: u64) -> bool {
    now - r.timestamp >= min_stake_period
}

/// Principal times elapsed seconds for a matured record; nothing for one
/// that has not matured.
pub open spec fn accrual_weight(r: StakeRecord, now: i64, min_stake_period: u64) -> int {
    if is_matured(r, now, min_stake_period) {
        r.amount * (now - r.timestamp)
    } else {
        0
    }
}

pub open spec fn total_weight(s: Seq<StakeRecord>, now: i64, min_stake_period: u64) -> int
    decreases s.len(),
{
    if s.len() == 0 {
        0
    } else {
        total_weight(s.drop_last(), now, min_stake_period) + accrual_weight(s.last(), now, min_stake_period)
    }
}

/// The principal of the matured records.
pub open spec fn matured_principal(s: Seq<StakeRecord>, now: i64, min_stake_period: u64) -> int
    decreases s.len(),
{
    if s.len() == 0 {
        0
    } else {
        matured_principal(s.drop_last(), now, min_stake_period) + if is_matured(s.last(), now, min_stake_period) {
            s.last().amount as int
        } else {
            0
        }
    }
}

/// The reward owed on the matured records: their accrued interest summed
/// exactly, then truncated to whole token units.
pub open spec fn accrued_reward(s: Seq<StakeRecord>, now: i64, min_stake_period: u64) -> int {
    total_weight(s, now, min_stake_period) / (REWARD_DIVISOR as int)
}

/// The records after a claim at `now`: each matured record accrues afresh
/// from `now`; the others are left as they were.
pub open spec fn advanced(s: Seq<StakeRecord>, now: i64, min_stake_period: u64) -> Seq<StakeRecord> {
    s.map_values(|r: StakeRecord| if is_matured(r, now, min_stake_period) {
        StakeRecord { amount: r.amount, timestamp: now }
    } else {
        r
    })
}

/// What the matured records of a ledger are worth at a given time.
#[derive(Clone, Copy, Debug)]
pub struct Accrual {
    /// The principal of the matured records.
    pub principal: u128,
    /// The reward accrued on them.
    pub reward: u64,
}

proof fn lemma_weight_nonneg(r: StakeRecord, now: i64, min_stake_period: u64)
    ensures
        0 <= accrual_weight(r, now, min_stake_period),
{
    if is_matured(r, now, min_stake_period) {
        assert(r.amount * (now - r.timestamp) >= 0) by (nonlinear_arith)
            requires
                now - r.timestamp >= 0,
        ;
    }
}

proof fn lemma_total_weight_prefix_monotonic(s: Seq<StakeRecord>, i: int, j: int, now: i64, min_stake_period: u64)
    requires
        0 <= i <= j <= s.len(),
    ensures
        total_weight(s.take(i), now, min_stake_period) <= total_weight(s.take(j), now, min_stake_period),
    decreases j - i,
{
    if i < j {
        lemma_total_weight_prefix_monotonic(s, i, j - 1, now, min_stake_period);
        assert(s.take(j).drop_last() =~= s.take(j - 1));
        lemma_weight_nonneg(s.take(j).last(), now, min_stake_period);
    }
}

proof fn lemma_matured_principal_bound(s: Seq<StakeRecord>, now: i64, min_stake_period: u64)
    ensures
        0 <= matured_principal(s, now, min_stake_period) <= s.len() * 0xffff_ffff_ffff_ffff,
    decreases s.len(),
{
    if s.len() > 0 {
        lemma_matured_principal_bound(s.drop_last(), now, min_stake_period);
    }
}

/// Sums the matured principal and the reward of `stakes` at `now`; fails
/// where the reward does not fit in 64 bits.
pub fn accrue(stakes: &Vec<StakeRecord>, now: i64, min_stake_period: u64) -> (r: Result<Accrual, ErrorCode>)
    ensures
        accrued_reward(stakes@, now, min_stake_period) > u64::MAX ==> r == Err::<Accrual, ErrorCode>(ErrorCode::MathOverflow),
        accrued_reward(stakes@, now, min_stake_period) <= u64::MAX ==> (r matches Ok(a)
            && a.principal == matured_principal(stakes@, now, min_stake_period)
            && a.reward == accrued_reward(stakes@, now, min_stake_period)),
{
    let ghost s = stakes@;
    let mut weight: u128 = 0;
    let mut principal: u128 = 0;
    let mut i: usize = 0;
    while i < stakes.len()
        invariant
            s == stakes@,
            i <= s.len(),
            weight == total_weight(s.take(i as int), now, min_stake_period),
            principal == matured_principal(s.take(i as int), now, min_stake_period),
        decreases s.len() - i,
    {
        let rec = stakes[i];
        proof {
            assert(s.take(i + 1).drop_last() =~= s.take(i as int));
            assert(s.take(i + 1).last() == rec);
            lemma_matured_principal_bound(s.take(i as int), now, min_stake_period);
            assert(i * 0xffff_ffff_ffff_ffff <= 0xffff_ffff_ffff_ffff * 0xffff_ffff_ffff_ffffu128) by (nonlinear_arith)
                requires
                    i <= 0xffff_ffff_ffff_ffffu64,
            ;
        }
        let elapsed: i128 = now as i128 - rec.timestamp as i128;
        if elapsed >= min_stake_period as i128 {
            let span: u128 = elapsed as u128;
            assert(rec.amount as int * span as int <= 0xffff_ffff_ffff_ffff * 0xffff_ffff_ffff_ffffu128) by (nonlinear_arith)
                requires
                    rec.amount <= 0xffff_ffff_ffff_ffffu64,
                    span <= 0xffff_ffff_ffff_ffffu128,
            ;
            let w: u128 = rec.amount as u128 * span;
            match weight.checked_add(w) {
                Some(sum) => {
                    weight = sum;
                },
                None => {
                    proof {
                        lemma_total_weight_prefix_monotonic(s, i + 1, s.len() as int, now, min_stake_period);
                        assert(s.take(s.len() as int) =~= s);
                    }
                    return Err(ErrorCode::MathOverflow);
                },
            }
            principal = principal + rec.amount as u128;
        }
        i = i + 1;
    }
    assert(s.take(s.len() as int) =~= s);
    let reward: u128 = weight / REWARD_DIVISOR;
    if reward > u64::MAX as u128 {
        return Err(ErrorCode::MathOverflow);
    }
    Ok(Accrual { principal, reward: reward as u64 })
}

impl UserStakeAccount {
    /// Restarts accrual at `now` on every matured record.
    pub fn advance_matured(&mut self, now: i64, min_stake_period: u64)
        requires
            old(self).wf(),
        ensures
            final(self).wf(),
            final(self).authority == old(self).authority,
            final(self).capacity == old(self).capacity,
            final(self).stakes@ == advanced(old(self).stakes@, now, min_stake_period),
    {
        let ghost s = self.stakes@;
        let mut i: usize = 0;
        while i < self.stakes.len()
            invariant
                self.stakes@.len() == s.len(),
                self.stakes@.len() <= self.capacity,
                self.authority == old(self).authority,
                self.capacity == old(self).capacity,
                s == old(self).stakes@,
                i <= s.len(),
                forall|j: int| 0 <= j < i ==> self.stakes@[j] == advanced(s, now, min_stake_period)[j],
                forall|j: int| i <= j < s.len() ==> self.stakes@[j] == s[j],
            decreases s.len() - i,
        {
            let rec = self.stakes[i];
            let elapsed: i128 = now as i128 - rec.timestamp as i128;
            if elapsed >= min_stake_period as i128 {
                self.stakes.set(i, StakeRecord { amount: rec.amount, timestamp: now });
            }
            i = i + 1;
        }
        assert(self.stakes@ =~= advanced(s, now, min_stake_period));
    }
}

proof fn lemma_total_weight_zero(s: Seq<StakeRecord>, now: i64, min_stake_period: u64)
    requires
        forall|i: int| 0 <= i < s.len() ==> accrual_weight(#[trigger] s[i], now, min_stake_period) == 0,
    ensures
        total_weight(s, now, min_stake_period) == 0,
    decreases s.len(),
{
    if s.len() > 0 {
        assert forall|i: int| 0 <= i < s.drop_last().len() implies accrual_weight(
            #[trigger] s.drop_last()[i],
            now,
            min_stake_period,
        ) == 0 by {
            assert(s.drop_last()[i] == s[i]);
        }
        lemma_total_weight_zero(s.drop_last(), now, min_stake_period);
        assert(accrual_weight(s[s.len() - 1], now, min_stake_period) == 0);
    }
}

/// Right after a claim at `now`, nothing more has accrued at `now`: a second
/// claim at the same instant earns no reward.
pub proof fn lemma_reward_drained_by_claim(s: Seq<StakeRecord>, now: i64, min_stake_period: u64)
    ensures
        accrued_reward(advanced(s, now, min_stake_period), now, min_stake_period) == 0,
{
    let a = advanced(s, now, min_stake_period);
    assert forall|i: int| 0 <= i < a.len() implies accrual_weight(#[trigger] a[i], now, min_stake_period) == 0 by {
        if is_matured(s[i], now, min_stake_period) {
            assert(a[i].timestamp == now);
            assert(a[i].amount * (now - a[i].timestamp) == 0);
        } else {
            assert(a[i] == s[i]);
        }
    }
    lemma_total_weight_zero(a, now, min_stake_period);
}

/// A record claimed exactly `min_stake_period` seconds after its timestamp
/// earns `amount * min_stake_period / 210_240_000` (15% a year, truncated);
/// its principal stays and it accrues afresh from the claim.
pub proof fn lemma_claim_at_maturity(r: StakeRecord, min_stake_period: u64)
    requires
        r.timestamp + min_stake_period <= i64::MAX,
    ensures
        accrued_reward(seq![r], (r.timestamp + min_stake_period) as i64, min_stake_period)
            == r.amount * min_stake_period / (REWARD_DIVISOR as int),
        advanced(seq![r], (r.timestamp + min_stake_period) as i64, min_stake_period)
            == seq![StakeRecord { amount: r.amount, timestamp: (r.timestamp + min_stake_period) as i64 }],
{
    let now = (r.timestamp + min_stake_period) as i64;
    let s = seq![r];
    assert(s.drop_last() =~= Seq::<StakeRecord>::empty());
    assert(s.last() == r);
    assert(now - r.timestamp == min_stake_period);
    assert(total_weight(s.drop_last(), now, min_stake_period) == 0);
    assert(accrual_weight(r, now, min_stake_period) == r.amount * min_stake_period);
    assert(total_weight(s, now, min_stake_period) == r.amount * min_stake_period);
    assert(advanced(s, now, min_stake_period) =~= seq![StakeRecord { amount: r.amount, timestamp: now }]);
}

} // verus!
