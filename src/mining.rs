use vstd::prelude::*;

use crate::AccountKey;

verus! {

/// Seconds that must pass after a withdrawal before the next one.
pub const WITHDRAWAL_COOLDOWN: i64 = 86_400;

/// Classification of a mining deposit by its size.
#[derive(Clone, Copy, Debug, PartialEq, Eq, Structural)]
pub enum MiningTier {
    Bronze,
    Silver,
    Gold,
    Platinum,
}

/// The tier that a deposit of `amount` belongs to.
pub open spec fn tier_for(amount: int) -> MiningTier {
    if amount >= 100_000 {
        MiningTier::Platinum
    } else if amount >= 10_000 {
        MiningTier::Gold
    } else if amount >= 1_000 {
        MiningTier::Silver
    } else {
        MiningTier::Bronze
    }
}

/// Position of a tier in the order Bronze < Silver < Gold < Platinum.
pub open spec fn tier_rank(tier: MiningTier) -> int {
    match tier {
        MiningTier::Bronze => 0,
        MiningTier::Silver => 1,
        MiningTier::Gold => 2,
        MiningTier::Platinum => 3,
    }
}

/// Daily point cap of a tier.
pub open spec fn cap_for(tier: MiningTier) -> u64 {
    match tier {
        MiningTier::Bronze => 1000,
        MiningTier::Silver => 5000,
        MiningTier::Gold => 25000,
        MiningTier::Platinum => 100000,
    }
}

impl MiningTier {
    pub fn from_deposit(amount: u64) -> (r: MiningTier)
        ensures
            r == tier_for(amount as int),
    {
        if amount >= 100_000 {
            MiningTier::Platinum
        } else if amount >= 10_000 {
            MiningTier::Gold
        } else if amount >= 1_000 {
            MiningTier::Silver
        } else {
            MiningTier::Bronze
        }
    }

    pub fn daily_cap(&self) -> (r: u64)
        ensures
            r == cap_for(*self),
    {
        match self {
            MiningTier::Bronze => 1000,
            MiningTier::Silver => 5000,
            MiningTier::Gold => 25000,
            MiningTier::Platinum => 100000,
        }
    }
}

/// A mining vault for one mint.
#[derive(Clone, Copy, Debug, PartialEq, Eq)]
pub struct MiningVault {
    pub mint: AccountKey,
    /// Sum of the deposit amounts of all deposit records of this vault.
    pub total_deposited: u64,
    /// Receives the entry fees.
    pub pool_authority: AccountKey,
    pub entry_fee_cap: u64,
}

/// One user's mining deposit.
#[derive(Clone, Copy, Debug, PartialEq, Eq)]
pub struct UserMiningDeposit {
    pub user: AccountKey,
    pub deposit_amount: u64,
    pub tier: MiningTier,
    pub deposited_at: i64,
    pub last_withdrawal_at: i64,
    pub total_entry_fees_paid: u64,
    pub daily_points_earned: u64,
    pub daily_points_cap: u64,
    pub last_daily_reset: i64,
}

#[derive(Clone, Copy, Debug, PartialEq, Eq, Structural)]
pub enum MiningError {
    InsufficientDeposit,
    WithdrawalCooldown,
    EntryFeeExceedsCap,
    ArithmeticOverflow,
}

impl UserMiningDeposit {
    /// Tier and daily cap agree with the deposited amount.
    pub open spec fn wf(&self) -> bool {
        &&& self.tier == tier_for(self.deposit_amount as int)
        &&& self.daily_points_cap == cap_for(self.tier)
    }

    /// The record of a user who has not deposited yet.
    pub fn empty(user: AccountKey) -> (r: UserMiningDeposit)
        ensures
            r == (UserMiningDeposit {
                user,
                deposit_amount: 0,
                tier: MiningTier::Bronze,
                deposited_at: 0,
                last_withdrawal_at: 0,
                total_entry_fees_paid: 0,
                daily_points_earned: 0,
                daily_points_cap: 1000,
                last_daily_reset: 0,
            }),
            r.wf(),
    {
        UserMiningDeposit {
            user,
            deposit_amount: 0,
            tier: MiningTier::Bronze,
            deposited_at: 0,
            last_withdrawal_at: 0,
            total_entry_fees_paid: 0,
            daily_points_earned: 0,
            daily_points_cap: 1000,
            last_daily_reset: 0,
        }
    }
}

/// `d` holding `amount`, with tier and daily cap recomputed from it.
pub open spec fn with_amount(d: UserMiningDeposit, amount: u64) -> UserMiningDeposit {
    UserMiningDeposit {
        deposit_amount: amount,
        tier: tier_for(amount as int),
        daily_points_cap: cap_for(tier_for(amount as int)),
        ..d
    }
}

/// What `deposit` does: the new vault and deposit record, or the error. A record that
/// holds nothing starts a deposit period at `now` for `user`, with its daily points zeroed;
/// its last withdrawal and its entry fee total carry over.
pub open spec fn deposit_outcome(
    vault: MiningVault,
    d: UserMiningDeposit,
    user: AccountKey,
    amount: u64,
    now: i64,
) -> Result<(MiningVault, UserMiningDeposit), MiningError> {
    if d.deposit_amount + amount > u64::MAX || vault.total_deposited + amount > u64::MAX {
        Err(MiningError::ArithmeticOverflow)
    } else {
        let started = if d.deposit_amount == 0 {
            UserMiningDeposit {
                user,
                deposited_at: now,
                daily_points_earned: 0,
                last_daily_reset: now,
                ..d
            }
        } else {
            d
        };
        Ok(
            (
                MiningVault { total_deposited: (vault.total_deposited + amount) as u64, ..vault },
                with_amount(started, (d.deposit_amount + amount) as u64),
            ),
        )
    }
}

/// What `withdraw` does: the new vault and deposit record, or the error.
pub open spec fn withdraw_outcome(
    vault: MiningVault,
    d: UserMiningDeposit,
    amount: u64,
    now: i64,
) -> Result<(MiningVault, UserMiningDeposit), MiningError> {
    if amount > d.deposit_amount {
        Err(MiningError::InsufficientDeposit)
    } else if now < d.last_withdrawal_at + WITHDRAWAL_COOLDOWN {
        Err(MiningError::WithdrawalCooldown)
    } else {
        Ok(
            (
                MiningVault { total_deposited: (vault.total_deposited - amount) as u64, ..vault },
                with_amount(
                    UserMiningDeposit { last_withdrawal_at: now, ..d },
                    (d.deposit_amount - amount) as u64,
                ),
            ),
        )
    }
}

/// What `pay_entry_fee` does: the new deposit record, or the error.
pub open spec fn entry_fee_outcome(vault: MiningVault, d: UserMiningDeposit, fee: u64) -> Result<
    UserMiningDeposit,
    MiningError,
> {
    if fee > vault.entry_fee_cap {
        Err(MiningError::EntryFeeExceedsCap)
    } else if d.total_entry_fees_paid + fee > u64::MAX {
        Err(MiningError::ArithmeticOverflow)
    } else {
        Ok(UserMiningDeposit { total_entry_fees_paid: (d.total_entry_fees_paid + fee) as u64, ..d })
    }
}

/// A new vault with nothing deposited.
pub fn initialize_vault(mint: AccountKey, pool_authority: AccountKey, entry_fee_cap: u64) -> (r:
    MiningVault)
    ensures
        r == (MiningVault { mint, total_deposited: 0, pool_authority, entry_fee_cap }),
        r.total_deposited == total_deposits(Seq::empty()),
{
    MiningVault { mint, total_deposited: 0, pool_authority, entry_fee_cap }
}

/// Sets the amount of `d`, recomputing its tier and daily cap.
fn set_amount(d: &mut UserMiningDeposit, amount: u64)
    ensures
        *final(d) == with_amount(*old(d), amount),
{
    d.deposit_amount = amount;
    d.tier = MiningTier::from_deposit(amount);
    d.daily_points_cap = d.tier.daily_cap();
}

/// Adds `amount` to the deposit of `user`. The caller moves `amount` into the vault's
/// custody and keeps the new records only if that transfer succeeds.
pub fn deposit(
    vault: &mut MiningVault,
    user_deposit: &mut UserMiningDeposit,
    user: AccountKey,
    amount: u64,
    now: i64,
) -> (r: Result<(), MiningError>)
    ensures
        match deposit_outcome(*old(vault), *old(user_deposit), user, amount, now) {
            Ok((v, d)) => r is Ok && *final(vault) == v && *final(user_deposit) == d,
            Err(e) => r == Err::<(), MiningError>(e) && *final(vault) == *old(vault)
                && *final(user_deposit) == *old(user_deposit),
        },
        r is Ok ==> final(user_deposit).wf(),
{
    let new_amount = match user_deposit.deposit_amount.checked_add(amount) {
        Some(v) => v,
        None => return Err(MiningError::ArithmeticOverflow),
    };
    let new_total = match vault.total_deposited.checked_add(amount) {
        Some(v) => v,
        None => return Err(MiningError::ArithmeticOverflow),
    };
    if user_deposit.deposit_amount == 0 {
        user_deposit.user = user;
        user_deposit.deposited_at = now;
        user_deposit.daily_points_earned = 0;
        user_deposit.last_daily_reset = now;
    }
    set_amount(user_deposit, new_amount);
    vault.total_deposited = new_total;
    Ok(())
}

/// Takes `amount` out of the user's deposit, at most once per cooldown window counted
/// from the previous withdrawal. The caller moves `amount` from the vault's custody to
/// the user and keeps the new records only if that transfer succeeds. The record's
/// amount is part of the vault's total, as the vault's invariant has it.
pub fn withdraw(
    vault: &mut MiningVault,
    user_deposit: &mut UserMiningDeposit,
    amount: u64,
    now: i64,
) -> (r: Result<(), MiningError>)
    requires
        old(user_deposit).deposit_amount <= old(vault).total_deposited,
    ensures
        match withdraw_outcome(*old(vault), *old(user_deposit), amount, now) {
            Ok((v, d)) => r is Ok && *final(vault) == v && *final(user_deposit) == d,
            Err(e) => r == Err::<(), MiningError>(e) && *final(vault) == *old(vault)
                && *final(user_deposit) == *old(user_deposit),
        },
        r is Ok ==> final(user_deposit).wf(),
{
    if amount > user_deposit.deposit_amount {
        return Err(MiningError::InsufficientDeposit);
    }
    if (now as i128) < user_deposit.last_withdrawal_at as i128 + WITHDRAWAL_COOLDOWN as i128 {
        return Err(MiningError::WithdrawalCooldown);
    }
    user_deposit.last_withdrawal_at = now;
    set_amount(user_deposit, user_deposit.deposit_amount - amount);
    vault.total_deposited = vault.total_deposited - amount;
    Ok(())
}

/// Records an entry fee of at most the vault's cap. The caller moves `fee` to the
/// vault authority's account and keeps the new record only if that transfer succeeds.
pub fn pay_entry_fee(vault: &MiningVault, user_deposit: &mut UserMiningDeposit, fee: u64) -> (r:
    Result<(), MiningError>)
    ensures
        match entry_fee_outcome(*vault, *old(user_deposit), fee) {
            Ok(d) => r is Ok && *final(user_deposit) == d,
            Err(e) => r == Err::<(), MiningError>(e) && *final(user_deposit) == *old(user_deposit),
        },
{
    if fee > vault.entry_fee_cap {
        return Err(MiningError::EntryFeeExceedsCap);
    }
    let paid = match user_deposit.total_entry_fees_paid.checked_add(fee) {
        Some(v) => v,
        None => return Err(MiningError::ArithmeticOverflow),
    };
    user_deposit.total_entry_fees_paid = paid;
    Ok(())
}

/// Tiers are monotonic in the deposited amount.
pub proof fn lemma_tier_monotonic(x: int, y: int)
    requires
        x <= y,
    ensures
        tier_rank(tier_for(x)) <= tier_rank(tier_for(y)),
{
}

/// A deposit followed by a withdrawal of the same amount restores the tier and the
/// daily cap that the record had before.
pub proof fn lemma_deposit_withdraw_restores_tier(
    vault: MiningVault,
    d: UserMiningDeposit,
    user: AccountKey,
    amount: u64,
    deposited_at: i64,
    withdrawn_at: i64,
)
    requires
        d.wf(),
    ensures
        deposit_outcome(vault, d, user, amount, deposited_at) matches Ok((v1, d1)) ==> (withdraw_outcome(
            v1,
            d1,
            amount,
            withdrawn_at,
        ) matches Ok((v2, d2)) ==> d2.tier == d.tier && d2.daily_points_cap
            == d.daily_points_cap),
{
}

/// Sum of the deposit amounts of `deposits`.
pub open spec fn total_deposits(deposits: Seq<UserMiningDeposit>) -> int
    decreases deposits.len(),
{
    if deposits.len() == 0 {
        0
    } else {
        total_deposits(deposits.drop_last()) + deposits.last().deposit_amount
    }
}

proof fn lemma_total_deposits_nonnegative(deposits: Seq<UserMiningDeposit>)
    ensures
        total_deposits(deposits) >= 0,
    decreases deposits.len(),
{
    if deposits.len() > 0 {
        lemma_total_deposits_nonnegative(deposits.drop_last());
    }
}

proof fn lemma_total_deposits_update(deposits: Seq<UserMiningDeposit>, i: int, d: UserMiningDeposit)
    requires
        0 <= i < deposits.len(),
    ensures
        total_deposits(deposits.update(i, d)) == total_deposits(deposits)
            - deposits[i].deposit_amount + d.deposit_amount,
    decreases deposits.len(),
{
    if i == deposits.len() - 1 {
        assert(deposits.update(i, d).drop_last() =~= deposits.drop_last());
    } else {
        lemma_total_deposits_update(deposits.drop_last(), i, d);
        assert(deposits.update(i, d).drop_last() =~= deposits.drop_last().update(i, d));
    }
}

/// A vault's total stays the sum of the amounts of its deposit records: when it is
/// before a `deposit`, `withdraw` or `pay_entry_fee` on one of them succeeds, it still is
/// afterwards.
pub proof fn lemma_vault_total_preserved(
    vault: MiningVault,
    deposits: Seq<UserMiningDeposit>,
    i: int,
    user: AccountKey,
    amount: u64,
    now: i64,
)
    requires
        vault.total_deposited == total_deposits(deposits),
        0 <= i < deposits.len(),
    ensures
        deposit_outcome(vault, deposits[i], user, amount, now) matches Ok((v, d)) ==> v.total_deposited
            == total_deposits(deposits.update(i, d)),
        withdraw_outcome(vault, deposits[i], amount, now) matches Ok((v, d)) ==> v.total_deposited
            == total_deposits(deposits.update(i, d)),
        entry_fee_outcome(vault, deposits[i], amount) matches Ok(d) ==> vault.total_deposited
            == total_deposits(deposits.update(i, d)),
{
    if let Ok((v, d)) = deposit_outcome(vault, deposits[i], user, amount, now) {
        lemma_total_deposits_update(deposits, i, d);
    }
    if let Ok((v, d)) = withdraw_outcome(vault, deposits[i], amount, now) {
        lemma_total_deposits_update(deposits, i, d);
        lemma_total_deposits_nonnegative(deposits.update(i, d));
    }
    if let Ok(d) = entry_fee_outcome(vault, deposits[i], amount) {
        lemma_total_deposits_update(deposits, i, d);
    }
}

/// A deposit never shortens the withdrawal cooldown or forgets paid entry fees: the last
/// withdrawal time and the fee total carry over, also into a record that holds nothing.
/// So a withdrawal within the cooldown of the previous one fails even after a deposit.
pub proof fn lemma_deposit_keeps_cooldown(
    vault: MiningVault,
    d: UserMiningDeposit,
    user: AccountKey,
    amount: u64,
    deposited_at: i64,
    withdraw_amount: u64,
    withdrawn_at: i64,
)
    requires
        withdrawn_at < d.last_withdrawal_at + WITHDRAWAL_COOLDOWN,
    ensures
        deposit_outcome(vault, d, user, amount, deposited_at) matches Ok((v1, d1)) ==> {
            &&& d1.last_withdrawal_at == d.last_withdrawal_at
            &&& d1.total_entry_fees_paid == d.total_entry_fees_paid
            &&& withdraw_amount <= d1.deposit_amount ==> withdraw_outcome(
                v1,
                d1,
                withdraw_amount,
                withdrawn_at,
            ) == Err::<(MiningVault, UserMiningDeposit), MiningError>(
                MiningError::WithdrawalCooldown,
            )
        },
{
}

} // verus!
