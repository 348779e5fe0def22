use vstd::prelude::*;

use crate::AccountKey;

verus! {

/// Seconds in the fixed 365-day year over which `apy` accrues.
pub const SECONDS_PER_YEAR: u64 = 31_536_000;

/// Basis points that make up one whole (10000 bps = 100%).
pub const BPS_PER_UNIT: u64 = 10_000;

/// A staking pool for one mint.
#[derive(Clone, Copy, Debug, PartialEq, Eq)]
pub struct StakingPool {
    pub mint: AccountKey,
    /// Sum of the amounts of all stake records of this pool.
    pub total_staked: u64,
    /// Annual yield in basis points (1200 = 12%).
    pub apy: u16,
    pub min_stake: u64,
    /// Seconds that a stake stays locked after each deposit.
    pub lock_period: i64,
    pub pool_authority: AccountKey,
}

/// One user's stake in one pool.
#[derive(Clone, Copy, Debug, PartialEq, Eq)]
pub struct UserStake {
    pub user: AccountKey,
    pub pool: AccountKey,
    pub amount: u64,
    /// Start of the current reward accrual period.
    pub staked_at: i64,
    pub lock_until: i64,
    pub rewards_earned: u64,
}

#[derive(Clone, Copy, Debug, PartialEq, Eq, Structural)]
pub enum JdhChainError {
    BelowMinimumStake,
    InsufficientStakedAmount,
    LockNotExpired,
    NoRewardsAvailable,
    ArithmeticOverflow,
}

/// Seconds from `from` to `now`; none when `now` is not later.
pub open spec fn seconds_elapsed(from: i64, now: i64) -> int {
    if now > from {
        now - from
    } else {
        0
    }
}

/// Simple interest on `amount` at `apy` basis points a year over `seconds`, rounded down.
pub open spec fn reward_value(amount: int, apy: int, seconds: int) -> int {
    (amount * apy * seconds) / (BPS_PER_UNIT * SECONDS_PER_YEAR)
}

/// Rewards accrued by `stake` in `pool` at time `now`: interest on the whole current
/// amount since the start of the accrual period.
pub open spec fn accrued(stake: UserStake, pool: StakingPool, now: i64) -> int {
    reward_value(stake.amount as int, pool.apy as int, seconds_elapsed(stake.staked_at, now))
}

/// Sum of the staked amounts of `stakes`.
pub open spec fn total_amount(stakes: Seq<UserStake>) -> int
    decreases stakes.len(),
{
    if stakes.len() == 0 {
        0
    } else {
        total_amount(stakes.drop_last()) + stakes.last().amount
    }
}

/// What `stake` does: the new pool and stake record, or the error. A record that holds
/// nothing starts its accrual period at `now` and names `user` and `pool_key`.
pub open spec fn stake_outcome(
    pool: StakingPool,
    stake: UserStake,
    user: AccountKey,
    pool_key: AccountKey,
    amount: u64,
    now: i64,
) -> Result<
    (StakingPool, UserStake),
    JdhChainError,
> {
    if amount < pool.min_stake {
        Err(JdhChainError::BelowMinimumStake)
    } else if stake.amount + amount > u64::MAX || pool.total_staked + amount > u64::MAX || now
        + pool.lock_period > i64::MAX || now + pool.lock_period < i64::MIN {
        Err(JdhChainError::ArithmeticOverflow)
    } else {
        Ok(
            (
                StakingPool { total_staked: (pool.total_staked + amount) as u64, ..pool },
                UserStake {
                    amount: (stake.amount + amount) as u64,
                    staked_at: if stake.amount == 0 {
                        now
                    } else {
                        stake.staked_at
                    },
                    lock_until: (now + pool.lock_period) as i64,
                    ..if stake.amount == 0 {
                        UserStake { user, pool: pool_key, ..stake }
                    } else {
                        stake
                    }
                },
            ),
        )
    }
}

/// What `unstake` does: the new pool and stake record and the rewards paid, or the error.
pub open spec fn unstake_outcome(pool: StakingPool, stake: UserStake, amount: u64, now: i64) -> Result<
    (StakingPool, UserStake, u64),
    JdhChainError,
> {
    if amount > stake.amount {
        Err(JdhChainError::InsufficientStakedAmount)
    } else if now < stake.lock_until {
        Err(JdhChainError::LockNotExpired)
    } else if accrued(stake, pool, now) > u64::MAX || stake.rewards_earned + accrued(stake, pool, now)
        > u64::MAX {
        Err(JdhChainError::ArithmeticOverflow)
    } else {
        Ok(
            (
                StakingPool { total_staked: (pool.total_staked - amount) as u64, ..pool },
                UserStake {
                    amount: (stake.amount - amount) as u64,
                    rewards_earned: (stake.rewards_earned + accrued(stake, pool, now)) as u64,
                    ..stake
                },
                accrued(stake, pool, now) as u64,
            ),
        )
    }
}

/// What `claim_rewards` does: the new stake record and the rewards paid, or the error.
pub open spec fn claim_outcome(pool: StakingPool, stake: UserStake, now: i64) -> Result<
    (UserStake, u64),
    JdhChainError,
> {
    if accrued(stake, pool, now) > u64::MAX {
        Err(JdhChainError::ArithmeticOverflow)
    } else if accrued(stake, pool, now) == 0 {
        Err(JdhChainError::NoRewardsAvailable)
    } else if stake.rewards_earned + accrued(stake, pool, now) > u64::MAX {
        Err(JdhChainError::ArithmeticOverflow)
    } else {
        Ok(
            (
                UserStake {
                    rewards_earned: (stake.rewards_earned + accrued(stake, pool, now)) as u64,
                    staked_at: now,
                    ..stake
                },
                accrued(stake, pool, now) as u64,
            ),
        )
    }
}

/// A new pool with nothing staked.
pub fn initialize_staking_pool(
    mint: AccountKey,
    pool_authority: AccountKey,
    apy: u16,
    min_stake: u64,
    lock_period: i64,
) -> (r: StakingPool)
    ensures
        r == (StakingPool { mint, total_staked: 0, apy, min_stake, lock_period, pool_authority }),
        r.total_staked == total_amount(Seq::empty()),
{
    StakingPool { mint, total_staked: 0, apy, min_stake, lock_period, pool_authority }
}

impl UserStake {
    /// The record of a user who has not staked in `pool` yet.
    pub fn empty(user: AccountKey, pool: AccountKey) -> (r: UserStake)
        ensures
            r == (UserStake {
                user,
                pool,
                amount: 0,
                staked_at: 0,
                lock_until: 0,
                rewards_earned: 0,
            }),
    {
        UserStake { user, pool, amount: 0, staked_at: 0, lock_until: 0, rewards_earned: 0 }
    }
}

/// Denominator of the reward formula: basis points times seconds per year.
const REWARD_DENOMINATOR: u128 = 315_360_000_000;

/// A product too large for 128 bits gives a reward beyond `u64::MAX`.
proof fn lemma_wide_product_overflows_reward(product: int)
    requires
        product > u128::MAX,
    ensures
        product / (BPS_PER_UNIT * SECONDS_PER_YEAR) > u64::MAX,
{
    let d: int = BPS_PER_UNIT * SECONDS_PER_YEAR;
    let bound: int = (u64::MAX + 1) * d;
    assert(bound <= product);
    vstd::arithmetic::div_mod::lemma_div_is_ordered(bound, product, d);
    vstd::arithmetic::div_mod::lemma_div_by_multiple(u64::MAX + 1, d);
}

/// Rewards accrued by `user_stake` at `now`, computed with 128-bit intermediates;
/// `None` when they do not fit in a `u64`.
pub fn calculate_rewards(user_stake: &UserStake, pool: &StakingPool, now: i64) -> (r: Option<u64>)
    ensures
        r == (if accrued(*user_stake, *pool, now) <= u64::MAX {
            Some(accrued(*user_stake, *pool, now) as u64)
        } else {
            None
        }),
{
    let seconds: u128 = if now > user_stake.staked_at {
        (now as i128 - user_stake.staked_at as i128) as u128
    } else {
        0
    };
    let amount = user_stake.amount as u128;
    let apy = pool.apy as u128;
    assert(amount * apy <= u64::MAX * u16::MAX) by (nonlinear_arith)
        requires
            amount <= u64::MAX,
            apy <= u16::MAX,
    ;
    let base: u128 = amount * apy;
    match base.checked_mul(seconds) {
        None => {
            proof {
                lemma_wide_product_overflows_reward(base * seconds);
            }
            None
        },
        Some(product) => {
            let q = product / REWARD_DENOMINATOR;
            if q > u64::MAX as u128 {
                None
            } else {
                Some(q as u64)
            }
        },
    }
}

/// Stakes `amount` more for `user` in the pool at `pool_key`: the whole stake is locked for another `lock_period` from `now`,
/// and the accrual period starts at `now` when nothing was staked before. The caller
/// moves `amount` into the pool's custody and keeps the new records only if that
/// transfer succeeds.
pub fn stake(
    pool: &mut StakingPool,
    user_stake: &mut UserStake,
    user: AccountKey,
    pool_key: AccountKey,
    amount: u64,
    now: i64,
) -> (r: Result<(), JdhChainError>)
    ensures
        match stake_outcome(*old(pool), *old(user_stake), user, pool_key, amount, now) {
            Ok((p, s)) => r is Ok && *final(pool) == p && *final(user_stake) == s,
            Err(e) => r == Err::<(), JdhChainError>(e) && *final(pool) == *old(pool) && *final(user_stake) == *old(user_stake),
        },
{
    if amount < pool.min_stake {
        return Err(JdhChainError::BelowMinimumStake);
    }
    let new_amount = match user_stake.amount.checked_add(amount) {
        Some(v) => v,
        None => return Err(JdhChainError::ArithmeticOverflow),
    };
    let new_total = match pool.total_staked.checked_add(amount) {
        Some(v) => v,
        None => return Err(JdhChainError::ArithmeticOverflow),
    };
    let lock_until = match now.checked_add(pool.lock_period) {
        Some(v) => v,
        None => return Err(JdhChainError::ArithmeticOverflow),
    };
    if user_stake.amount == 0 {
        user_stake.user = user;
        user_stake.pool = pool_key;
        user_stake.staked_at = now;
    }
    user_stake.lock_until = lock_until;
    user_stake.amount = new_amount;
    pool.total_staked = new_total;
    Ok(())
}

/// Withdraws `amount` once the lock has expired, paying the rewards accrued on the whole
/// current stake; the accrual period is not restarted. Returns the rewards, which the
/// caller pays out (when nonzero) before returning the principal. The stake's amount is
/// part of the pool's total, as the pool's invariant has it.
pub fn unstake(pool: &mut StakingPool, user_stake: &mut UserStake, amount: u64, now: i64) -> (r:
    Result<u64, JdhChainError>)
    requires
        old(user_stake).amount <= old(pool).total_staked,
    ensures
        match unstake_outcome(*old(pool), *old(user_stake), amount, now) {
            Ok((p, s, rewards)) => r == Ok::<u64, JdhChainError>(rewards) && *final(pool) == p
                && *final(user_stake) == s,
            Err(e) => r == Err::<u64, JdhChainError>(e) && *final(pool) == *old(pool) && *final(user_stake) == *old(user_stake),
        },
{
    if amount > user_stake.amount {
        return Err(JdhChainError::InsufficientStakedAmount);
    }
    if now < user_stake.lock_until {
        return Err(JdhChainError::LockNotExpired);
    }
    let rewards = match calculate_rewards(user_stake, pool, now) {
        Some(v) => v,
        None => return Err(JdhChainError::ArithmeticOverflow),
    };
    let earned = match user_stake.rewards_earned.checked_add(rewards) {
        Some(v) => v,
        None => return Err(JdhChainError::ArithmeticOverflow),
    };
    user_stake.rewards_earned = earned;
    user_stake.amount = user_stake.amount - amount;
    pool.total_staked = pool.total_staked - amount;
    Ok(rewards)
}

/// Pays out the rewards accrued so far and restarts the accrual period at `now`.
/// Returns the rewards, which the caller transfers to the user.
pub fn claim_rewards(pool: &StakingPool, user_stake: &mut UserStake, now: i64) -> (r: Result<
    u64,
    JdhChainError,
>)
    ensures
        match claim_outcome(*pool, *old(user_stake), now) {
            Ok((s, rewards)) => r == Ok::<u64, JdhChainError>(rewards) && *final(user_stake) == s,
            Err(e) => r == Err::<u64, JdhChainError>(e) && *final(user_stake) == *old(user_stake),
        },
{
    let rewards = match calculate_rewards(user_stake, pool, now) {
        Some(v) => v,
        None => return Err(JdhChainError::ArithmeticOverflow),
    };
    if rewards == 0 {
        return Err(JdhChainError::NoRewardsAvailable);
    }
    let earned = match user_stake.rewards_earned.checked_add(rewards) {
        Some(v) => v,
        None => return Err(JdhChainError::ArithmeticOverflow),
    };
    user_stake.rewards_earned = earned;
    user_stake.staked_at = now;
    Ok(rewards)
}

proof fn lemma_total_amount_nonnegative(stakes: Seq<UserStake>)
    ensures
        total_amount(stakes) >= 0,
    decreases stakes.len(),
{
    if stakes.len() > 0 {
        lemma_total_amount_nonnegative(stakes.drop_last());
    }
}

proof fn lemma_total_amount_update(stakes: Seq<UserStake>, i: int, s: UserStake)
    requires
        0 <= i < stakes.len(),
    ensures
        total_amount(stakes.update(i, s)) == total_amount(stakes) - stakes[i].amount + s.amount,
    decreases stakes.len(),
{
    if i == stakes.len() - 1 {
        assert(stakes.update(i, s).drop_last() =~= stakes.drop_last());
    } else {
        lemma_total_amount_update(stakes.drop_last(), i, s);
        assert(stakes.update(i, s).drop_last() =~= stakes.drop_last().update(i, s));
    }
}

/// A pool's total stays the sum of the amounts of its stake records: when it is before a
/// `stake`, `unstake` or `claim_rewards` on one of them succeeds, it still is afterwards.
pub proof fn lemma_pool_total_preserved(
    pool: StakingPool,
    stakes: Seq<UserStake>,
    i: int,
    user: AccountKey,
    pool_key: AccountKey,
    amount: u64,
    now: i64,
)
    requires
        pool.total_staked == total_amount(stakes),
        0 <= i < stakes.len(),
    ensures
        stake_outcome(pool, stakes[i], user, pool_key, amount, now) matches Ok((p, s)) ==> p.total_staked
            == total_amount(stakes.update(i, s)),
        unstake_outcome(pool, stakes[i], amount, now) matches Ok((p, s, _)) ==> p.total_staked
            == total_amount(stakes.update(i, s)),
        claim_outcome(pool, stakes[i], now) matches Ok((s, _)) ==> pool.total_staked
            == total_amount(stakes.update(i, s)),
{
    if let Ok((p, s)) = stake_outcome(pool, stakes[i], user, pool_key, amount, now) {
        lemma_total_amount_update(stakes, i, s);
    }
    if let Ok((p, s, _)) = unstake_outcome(pool, stakes[i], amount, now) {
        lemma_total_amount_update(stakes, i, s);
        lemma_total_amount_nonnegative(stakes.update(i, s));
    }
    if let Ok((s, _)) = claim_outcome(pool, stakes[i], now) {
        lemma_total_amount_update(stakes, i, s);
    }
}

/// An unstake of no more than is staked fails with `LockNotExpired` before `lock_until`,
/// and succeeds at exactly `lock_until` whenever the rewards due fit in a `u64`.
pub proof fn lemma_lock_semantics(pool: StakingPool, stake: UserStake, amount: u64, now: i64)
    requires
        amount <= stake.amount,
    ensures
        now < stake.lock_until ==> unstake_outcome(pool, stake, amount, now) == Err::<
            (StakingPool, UserStake, u64),
            JdhChainError,
        >(JdhChainError::LockNotExpired),
        now == stake.lock_until && stake.rewards_earned + accrued(stake, pool, now) <= u64::MAX
            ==> unstake_outcome(pool, stake, amount, now) is Ok,
{
}

} // verus!
