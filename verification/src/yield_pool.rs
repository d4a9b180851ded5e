//! A staking pool with a lazily updated reward-per-share accumulator: rewards
//! accrue at `reward_rate` units per second, spread over the staked total in
//! fixed-point with a 1e12 scale, and each staker carries a `reward_debt`
//! snapshot so pending rewards are computed without walking all stakers.
//!
//! Every entry point settles the accumulator up to `now` first; the timestamp
//! advances even over stretches with nothing staked or a zero rate, so a later
//! staker can never capture rewards from before their stake. On any balance
//! change the staker's pending reward is settled before the debt snapshot is
//! retaken, so accrued rewards are never silently forfeited. The host pays the
//! returned amounts out of the reward vault.

use vstd::prelude::*;

verus! {

use vstd::arithmetic::div_mod::{
    lemma_div_is_ordered,
    lemma_fundamental_div_mod,
    lemma_hoist_over_denominator,
    lemma_mod_bound,
};
use vstd::arithmetic::mul::{
    lemma_mul_inequality,
    lemma_mul_is_distributive_add,
    lemma_mul_nonnegative,
    lemma_mul_upper_bound,
};
use vstd::math::max;
use crate::AccountId;

/// Fixed-point scale of the reward-per-share accumulator.
pub const SCALE: u128 = 1_000_000_000_000;

#[derive(Clone, Copy, Debug, PartialEq, Eq, Structural)]
pub enum ErrorCode {
    /// The caller is not the pool owner.
    Unauthorized,
    /// A counter or intermediate product would exceed its machine width.
    Overflow,
    /// The stake record belongs to someone else.
    InvalidOwner,
    /// The stake record belongs to another pool.
    InvalidPoolAccount,
    /// The withdrawal exceeds the staked amount.
    InsufficientStaked,
}

/// Pool-wide state: the accumulator, its last settlement time, the reward rate
/// and the staked total, plus the identities of the owner and the vaults.
#[derive(Clone, Copy, Debug)]
pub struct Pool {
    pub owner: AccountId,
    pub reward_mint: AccountId,
    pub reward_vault: AccountId,
    pub lp_vault: AccountId,
    /// Reward units accrued per second across the whole pool.
    pub reward_rate: u64,
    pub last_update: i64,
    /// Rewards per staked unit since genesis, scaled by `SCALE`.
    pub reward_per_share: u128,
    pub total_staked: u64,
}

/// One staker's principal and accumulator snapshot.
#[derive(Clone, Copy, Debug)]
pub struct UserStake {
    pub owner: AccountId,
    pub pool: AccountId,
    pub amount: u64,
    pub reward_debt: u128,
}

impl Pool {
    /// The settlement timestamp is a wall-clock time, never negative.
    pub open spec fn wf(self) -> bool {
        self.last_update >= 0
    }
}

/// What settling the accumulator up to `now` does: nothing accrues when time
/// has not advanced, or with nothing staked, or at a zero rate, but the
/// timestamp always moves to `now`; otherwise the accumulator grows by
/// `elapsed * rate * SCALE / total_staked`, floored, and the call fails on
/// overflow instead of wrapping.
pub open spec fn pool_update_spec(pool: Pool, now: i64) -> Result<Pool, ErrorCode> {
    if now <= pool.last_update {
        Ok(Pool { last_update: now, ..pool })
    } else {
        let elapsed = now - pool.last_update;
        if pool.total_staked > 0 && pool.reward_rate > 0 {
            if elapsed * pool.reward_rate * SCALE > u128::MAX {
                Err(ErrorCode::Overflow)
            } else {
                let add = elapsed * pool.reward_rate * SCALE / pool.total_staked as int;
                if pool.reward_per_share + add > u128::MAX {
                    Err(ErrorCode::Overflow)
                } else {
                    Ok(
                        Pool {
                            last_update: now,
                            reward_per_share: (pool.reward_per_share + add) as u128,
                            ..pool
                        },
                    )
                }
            }
        } else {
            Ok(Pool { last_update: now, ..pool })
        }
    }
}

/// A staker's pending reward: their share of the accumulator less the debt
/// snapshot, floored at zero.
pub open spec fn pending_spec(u: UserStake, pool: Pool) -> int {
    max(u.amount * pool.reward_per_share / SCALE as int - u.reward_debt, 0)
}

/// The debt snapshot a balance of `amount` takes against the accumulator.
pub open spec fn debt_snapshot_spec(amount: u64, pool: Pool) -> int {
    amount * pool.reward_per_share / SCALE as int
}

/// `a * b / c` on 128-bit values. The product must fit, as the callers'
/// arguments here always do.
pub fn mul_div_u128(a: u128, b: u128, c: u128) -> (r: u128)
    requires
        c > 0,
        a * b <= u128::MAX,
    ensures
        r == a * b / c as int,
{
    a * b / c
}

impl Pool {
    /// Settles the accumulator up to `now`, exactly as `pool_update_spec`
    /// states; on overflow the pool is unchanged.
    pub fn update(&mut self, now: i64) -> (r: Result<(), ErrorCode>)
        requires
            old(self).wf(),
            now >= 0,
        ensures
            final(self).wf(),
            match pool_update_spec(*old(self), now) {
                Ok(updated) => r == Ok::<(), ErrorCode>(()) && *final(self) == updated,
                Err(e) => r == Err::<(), ErrorCode>(e) && *final(self) == *old(self),
            },
    {
        if now <= self.last_update {
            self.last_update = now;
            return Ok(());
        }
        let elapsed: u128 = (now - self.last_update) as u128;
        if self.total_staked > 0 && self.reward_rate > 0 {
            proof {
                lemma_mul_upper_bound(
                    elapsed as int,
                    i64::MAX as int,
                    self.reward_rate as int,
                    u64::MAX as int,
                );
            }
            let reward: u128 = elapsed * (self.reward_rate as u128);
            let scaled = match reward.checked_mul(SCALE) {
                None => {
                    return Err(ErrorCode::Overflow);
                },
                Some(v) => v,
            };
            let add = scaled / (self.total_staked as u128);
            let new_rps = match self.reward_per_share.checked_add(add) {
                None => {
                    return Err(ErrorCode::Overflow);
                },
                Some(v) => v,
            };
            self.reward_per_share = new_rps;
        }
        self.last_update = now;
        Ok(())
    }
}

impl UserStake {
    /// The staker's pending reward against the current accumulator. The
    /// product of the balance and the accumulator must fit 128 bits, as the
    /// verified entry points ensure before calling.
    pub fn pending(&self, pool: &Pool) -> (r: u128)
        requires
            self.amount * pool.reward_per_share <= u128::MAX,
        ensures
            r == pending_spec(*self, *pool),
    {
        let acc = mul_div_u128(self.amount as u128, pool.reward_per_share, SCALE);
        if acc <= self.reward_debt {
            0
        } else {
            acc - self.reward_debt
        }
    }
}

/// The staker's share of the accumulator, or `Overflow` when the product does
/// not fit 128 bits.
fn accumulator_share(amount: u64, pool: &Pool) -> (r: Result<u128, ErrorCode>)
    ensures
        if amount * pool.reward_per_share > u128::MAX {
            r == Err::<u128, ErrorCode>(ErrorCode::Overflow)
        } else {
            r == Ok::<u128, ErrorCode>((debt_snapshot_spec(amount, *pool)) as u128)
        },
{
    match (amount as u128).checked_mul(pool.reward_per_share) {
        None => Err(ErrorCode::Overflow),
        Some(product) => Ok(product / SCALE),
    }
}

/// Creates a pool accruing `reward_rate` units per second from `now` on, with
/// an empty accumulator and nothing staked.
pub fn initialize_pool(
    owner: AccountId,
    reward_mint: AccountId,
    reward_vault: AccountId,
    lp_vault: AccountId,
    reward_rate: u64,
    now: i64,
) -> (r: Pool)
    requires
        now >= 0,
    ensures
        r.wf(),
        r == (Pool {
            owner,
            reward_mint,
            reward_vault,
            lp_vault,
            reward_rate,
            last_update: now,
            reward_per_share: 0,
            total_staked: 0,
        }),
{
    Pool {
        owner,
        reward_mint,
        reward_vault,
        lp_vault,
        reward_rate,
        last_update: now,
        reward_per_share: 0,
        total_staked: 0,
    }
}

/// Stakes `amount` for `staker`, initializing the record on first use. The
/// accumulator is settled to `now`, the staker's pending reward is returned
/// for the host to pay out, and the debt snapshot is retaken on the new
/// balance. The host also moves `amount` staked units into the vault.
pub fn stake(
    pool: &mut Pool,
    user: &mut UserStake,
    staker: AccountId,
    pool_id: AccountId,
    amount: u64,
    now: i64,
) -> (r: Result<u64, ErrorCode>)
    requires
        old(pool).wf(),
        now >= 0,
    ensures
        final(pool).wf(),
        r.is_err() ==> *final(pool) == *old(pool) && *final(user) == *old(user),
        ({
            let base = if old(user).owner == 0 {
                (UserStake { owner: staker, pool: pool_id, amount: 0, reward_debt: 0 })
            } else {
                *old(user)
            };
            if old(user).owner != 0 && old(user).owner != staker {
                r == Err::<u64, ErrorCode>(ErrorCode::InvalidOwner)
            } else if old(user).owner != 0 && old(user).pool != pool_id {
                r == Err::<u64, ErrorCode>(ErrorCode::InvalidPoolAccount)
            } else {
                match pool_update_spec(*old(pool), now) {
                    Err(e) => r == Err::<u64, ErrorCode>(e),
                    Ok(updated) => if base.amount * updated.reward_per_share > u128::MAX {
                        r == Err::<u64, ErrorCode>(ErrorCode::Overflow)
                    } else if pending_spec(base, updated) > u64::MAX {
                        r == Err::<u64, ErrorCode>(ErrorCode::Overflow)
                    } else if base.amount + amount > u64::MAX {
                        r == Err::<u64, ErrorCode>(ErrorCode::Overflow)
                    } else if (base.amount + amount) * updated.reward_per_share > u128::MAX {
                        r == Err::<u64, ErrorCode>(ErrorCode::Overflow)
                    } else if updated.total_staked + amount > u64::MAX {
                        r == Err::<u64, ErrorCode>(ErrorCode::Overflow)
                    } else {
                        r == Ok::<u64, ErrorCode>(pending_spec(base, updated) as u64)
                        && *final(pool) == (Pool {
                            total_staked: (updated.total_staked + amount) as u64,
                            ..updated
                        })
                        && *final(user) == (UserStake {
                            owner: staker,
                            pool: pool_id,
                            amount: (base.amount + amount) as u64,
                            reward_debt: (debt_snapshot_spec(
                                (base.amount + amount) as u64,
                                updated,
                            )) as u128,
                        })
                    },
                }
            }
        }),
{
    if user.owner != 0 && user.owner != staker {
        return Err(ErrorCode::InvalidOwner);
    }
    if user.owner != 0 && user.pool != pool_id {
        return Err(ErrorCode::InvalidPoolAccount);
    }
    let mut updated = *pool;
    match updated.update(now) {
        Ok(()) => {},
        Err(e) => {
            return Err(e);
        },
    }
    let base = if user.owner == 0 {
        UserStake { owner: staker, pool: pool_id, amount: 0, reward_debt: 0 }
    } else {
        *user
    };
    let share = match accumulator_share(base.amount, &updated) {
        Ok(v) => v,
        Err(e) => {
            return Err(e);
        },
    };
    let pending128: u128 = if share <= base.reward_debt {
        0
    } else {
        share - base.reward_debt
    };
    if pending128 > u64::MAX as u128 {
        return Err(ErrorCode::Overflow);
    }
    let pending = pending128 as u64;
    let new_amount = match base.amount.checked_add(amount) {
        None => {
            return Err(ErrorCode::Overflow);
        },
        Some(v) => v,
    };
    let new_debt = match accumulator_share(new_amount, &updated) {
        Ok(v) => v,
        Err(e) => {
            return Err(e);
        },
    };
    let new_total = match updated.total_staked.checked_add(amount) {
        None => {
            return Err(ErrorCode::Overflow);
        },
        Some(v) => v,
    };
    updated.total_staked = new_total;
    *pool = updated;
    *user = UserStake { owner: staker, pool: pool_id, amount: new_amount, reward_debt: new_debt };
    Ok(pending)
}

/// Withdraws `amount` of the staker's principal. The accumulator is settled to
/// `now`, the pending reward is returned for the host to pay out, the balance
/// and the staked total shrink, and the debt snapshot is retaken on what
/// remains. The host also moves `amount` staked units back to the staker.
pub fn withdraw(
    pool: &mut Pool,
    user: &mut UserStake,
    staker: AccountId,
    amount: u64,
    now: i64,
) -> (r: Result<u64, ErrorCode>)
    requires
        old(pool).wf(),
        now >= 0,
    ensures
        final(pool).wf(),
        r.is_err() ==> *final(pool) == *old(pool) && *final(user) == *old(user),
        if old(user).owner != staker {
            r == Err::<u64, ErrorCode>(ErrorCode::InvalidOwner)
        } else if old(user).amount < amount {
            r == Err::<u64, ErrorCode>(ErrorCode::InsufficientStaked)
        } else {
            match pool_update_spec(*old(pool), now) {
                Err(e) => r == Err::<u64, ErrorCode>(e),
                Ok(updated) => if old(user).amount * updated.reward_per_share > u128::MAX {
                    r == Err::<u64, ErrorCode>(ErrorCode::Overflow)
                } else if pending_spec(*old(user), updated) > u64::MAX {
                    r == Err::<u64, ErrorCode>(ErrorCode::Overflow)
                } else if updated.total_staked < amount {
                    r == Err::<u64, ErrorCode>(ErrorCode::Overflow)
                } else {
                    r == Ok::<u64, ErrorCode>(pending_spec(*old(user), updated) as u64)
                    && *final(pool) == (Pool {
                        total_staked: (updated.total_staked - amount) as u64,
                        ..updated
                    })
                    && *final(user) == (UserStake {
                        amount: (old(user).amount - amount) as u64,
                        reward_debt: (debt_snapshot_spec(
                            (old(user).amount - amount) as u64,
                            updated,
                        )) as u128,
                        ..*old(user)
                    })
                },
            }
        },
{
    if user.owner != staker {
        return Err(ErrorCode::InvalidOwner);
    }
    if user.amount < amount {
        return Err(ErrorCode::InsufficientStaked);
    }
    let mut updated = *pool;
    match updated.update(now) {
        Ok(()) => {},
        Err(e) => {
            return Err(e);
        },
    }
    let share = match accumulator_share(user.amount, &updated) {
        Ok(v) => v,
        Err(e) => {
            return Err(e);
        },
    };
    let pending128: u128 = if share <= user.reward_debt {
        0
    } else {
        share - user.reward_debt
    };
    if pending128 > u64::MAX as u128 {
        return Err(ErrorCode::Overflow);
    }
    let pending = pending128 as u64;
    if updated.total_staked < amount {
        return Err(ErrorCode::Overflow);
    }
    let new_amount = user.amount - amount;
    let new_debt = match accumulator_share(new_amount, &updated) {
        Ok(v) => v,
        Err(_) => {
            proof {
                lemma_mul_inequality(
                    new_amount as int,
                    user.amount as int,
                    updated.reward_per_share as int,
                );
            }
            return Err(ErrorCode::Overflow);
        },
    };
    updated.total_staked = updated.total_staked - amount;
    *pool = updated;
    user.amount = new_amount;
    user.reward_debt = new_debt;
    Ok(pending)
}

/// Pays out the staker's pending reward and retakes the debt snapshot; the
/// balance stays put. A zero pending reward succeeds and pays nothing.
pub fn claim(pool: &mut Pool, user: &mut UserStake, staker: AccountId, now: i64) -> (r: Result<
    u64,
    ErrorCode,
>)
    requires
        old(pool).wf(),
        now >= 0,
    ensures
        final(pool).wf(),
        r.is_err() ==> *final(pool) == *old(pool) && *final(user) == *old(user),
        if old(user).owner != staker {
            r == Err::<u64, ErrorCode>(ErrorCode::InvalidOwner)
        } else {
            match pool_update_spec(*old(pool), now) {
                Err(e) => r == Err::<u64, ErrorCode>(e),
                Ok(updated) => if old(user).amount * updated.reward_per_share > u128::MAX {
                    r == Err::<u64, ErrorCode>(ErrorCode::Overflow)
                } else if pending_spec(*old(user), updated) > u64::MAX {
                    r == Err::<u64, ErrorCode>(ErrorCode::Overflow)
                } else {
                    r == Ok::<u64, ErrorCode>(pending_spec(*old(user), updated) as u64)
                    && *final(pool) == updated
                    && *final(user) == (UserStake {
                        reward_debt: (debt_snapshot_spec(old(user).amount, updated)) as u128,
                        ..*old(user)
                    })
                },
            }
        },
{
    if user.owner != staker {
        return Err(ErrorCode::InvalidOwner);
    }
    let mut updated = *pool;
    match updated.update(now) {
        Ok(()) => {},
        Err(e) => {
            return Err(e);
        },
    }
    let share = match accumulator_share(user.amount, &updated) {
        Ok(v) => v,
        Err(e) => {
            return Err(e);
        },
    };
    let pending128: u128 = if share <= user.reward_debt {
        0
    } else {
        share - user.reward_debt
    };
    if pending128 > u64::MAX as u128 {
        return Err(ErrorCode::Overflow);
    }
    *pool = updated;
    user.reward_debt = share;
    Ok(pending128 as u64)
}

/// Owner-only rate change. The accumulator is settled at the old rate up to
/// `now` before the new rate takes effect, so the change is never
/// retroactive.
pub fn set_reward_rate(pool: &mut Pool, caller: AccountId, new_rate: u64, now: i64) -> (r: Result<
    (),
    ErrorCode,
>)
    requires
        old(pool).wf(),
        now >= 0,
    ensures
        final(pool).wf(),
        r.is_err() ==> *final(pool) == *old(pool),
        if caller != old(pool).owner {
            r == Err::<(), ErrorCode>(ErrorCode::Unauthorized)
        } else {
            match pool_update_spec(*old(pool), now) {
                Err(e) => r == Err::<(), ErrorCode>(e),
                Ok(updated) => r == Ok::<(), ErrorCode>(()) && *final(pool) == (Pool {
                    reward_rate: new_rate,
                    ..updated
                }),
            }
        },
{
    if caller != pool.owner {
        return Err(ErrorCode::Unauthorized);
    }
    let mut updated = *pool;
    match updated.update(now) {
        Ok(()) => {},
        Err(e) => {
            return Err(e);
        },
    }
    updated.reward_rate = new_rate;
    *pool = updated;
    Ok(())
}

/// A single staker earns the whole pool rate: when a stake of `s` (at most
/// `SCALE`) is the entire staked total and its debt snapshot was taken at the
/// current accumulator, then after settling to a later time `t1` the pending
/// reward equals `reward_rate * (t1 - last_update)`, short by at most one
/// unit of fixed-point rounding.
pub proof fn lemma_single_staker_accrual(pool: Pool, user: UserStake, t1: i64)
    requires
        0 <= pool.last_update <= t1,
        0 < pool.total_staked <= SCALE,
        user.amount == pool.total_staked,
        user.reward_debt == debt_snapshot_spec(user.amount, pool),
        pool_update_spec(pool, t1) is Ok,
    ensures
        ({
            let accrued = pool.reward_rate * (t1 - pool.last_update);
            let updated = pool_update_spec(pool, t1)->Ok_0;
            accrued - 1 <= pending_spec(user, updated) <= accrued
        }),
{
    let s = pool.total_staked as int;
    let rps0 = pool.reward_per_share as int;
    let rate = pool.reward_rate as int;
    let dt = t1 - pool.last_update;
    let scale = SCALE as int;
    let debt = s * rps0 / scale;
    let accrued = rate * dt;
    lemma_mul_nonnegative(rate, dt);
    if t1 <= pool.last_update || pool.reward_rate == 0 {
        // No time passed or a zero rate: the accumulator is unchanged and the
        // snapshot cancels the share exactly.
        assert(accrued == 0) by (nonlinear_arith)
            requires
                rate * dt == accrued,
                dt == 0 || rate == 0,
        ;
        let updated = pool_update_spec(pool, t1)->Ok_0;
        assert(updated.reward_per_share == rps0);
        assert(pending_spec(user, updated) == 0);
    } else {
        let grown = dt * rate * scale;
        let add = grown / s;
        let updated = pool_update_spec(pool, t1)->Ok_0;
        assert(updated.reward_per_share == rps0 + add);
        lemma_mul_nonnegative(dt, rate);
        lemma_mul_nonnegative(dt * rate, scale);
        // s * add is within s of the exact growth dt * rate * scale.
        lemma_fundamental_div_mod(grown, s);
        lemma_mod_bound(grown, s);
        assert(s * add <= grown && grown - s < s * add);
        // The share of the updated accumulator, bounded both ways.
        let acc = s * (rps0 + add) / scale;
        assert(s * (rps0 + add) == s * rps0 + s * add) by {
            lemma_mul_is_distributive_add(s, rps0, add);
        }
        // Upper bound: the growth contributes at most rate * dt to the share.
        assert(s * rps0 + grown == s * rps0 + (rate * dt) * scale) by (nonlinear_arith)
            requires
                grown == dt * rate * scale,
        ;
        lemma_div_is_ordered(s * (rps0 + add), s * rps0 + (rate * dt) * scale, scale);
        lemma_hoist_over_denominator(s * rps0, rate * dt, SCALE as nat);
        assert(acc <= debt + rate * dt);
        // Lower bound: the flooring in `add` loses less than one whole unit
        // because the stake is at most one scale's worth.
        assert(s * rps0 + grown - scale == s * rps0 + (rate * dt - 1) * scale) by (nonlinear_arith)
            requires
                grown == dt * rate * scale,
        ;
        assert(s * (rps0 + add) >= s * rps0 + grown - s + 1);
        assert(s * (rps0 + add) >= s * rps0 + (rate * dt - 1) * scale + 1);
        lemma_div_is_ordered(s * rps0 + (rate * dt - 1) * scale, s * (rps0 + add), scale);
        lemma_hoist_over_denominator(s * rps0, rate * dt - 1, SCALE as nat);
        assert(acc >= debt + rate * dt - 1);
        assert(pending_spec(user, updated) == max(acc - debt, 0));
    }
}

} // verus!
