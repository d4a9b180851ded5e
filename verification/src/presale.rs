//! A fixed-discount presale ledger: contributions are priced at 85% of the
//! public sale price, clipped to the headroom left under the SOL and token
//! caps, and entitlements are released on a ten-month tranche schedule (10%
//! upfront at the cliff, 9% per elapsed month) with a pre-cliff refund path
//! while the presale is closed.
//!
//! Every operation validates first and mutates only on success: on an error
//! the ledger and the allocation are exactly what they were. The host performs
//! the transfers that a successful call returns.

use vstd::prelude::*;

verus! {

use vstd::arithmetic::div_mod::{
    lemma_div_by_multiple,
    lemma_div_is_ordered,
    lemma_multiply_divide_le,
};
use vstd::arithmetic::mul::{lemma_mul_inequality, lemma_mul_upper_bound};
use vstd::math::{max, min};
use crate::AccountId;

/// Seconds in one vesting month: the tranche schedule uses fixed 30-day
/// months throughout.
pub const SECONDS_PER_MONTH: u64 = 30 * 24 * 60 * 60;

/// Number of monthly tranches after the upfront release.
pub const VESTING_MONTHS: u64 = 10;

#[derive(Clone, Copy, Debug, PartialEq, Eq, Structural)]
pub enum CustomError {
    /// The presale is closed (or, for `refund_tokens`, still open).
    PresaleClosed,
    /// The presale has not started yet.
    PresaleNotStarted,
    /// The cliff has not been reached, so nothing has vested.
    CliffNotReached,
    /// No tokens are claimable at this time.
    NothingToClaim,
    /// The caller is not the presale admin.
    Unauthorized,
    /// Vesting has begun, so refunds are no longer allowed.
    VestingStarted,
    /// The allocation does not hold enough tokens.
    InsufficientBalance,
    /// The payment is too small to buy a single token.
    InvalidContribution,
    /// The presale cap has been reached.
    PresaleLimitReached,
    /// A counter would exceed its machine width.
    MathOverflow,
}

/// Global presale state: caps, aggregate counters, the vesting timetable that
/// new allocations copy, and the lifecycle flag.
#[derive(Clone, Copy, Debug)]
pub struct PresaleAccount {
    pub token_mint: AccountId,
    pub admin: AccountId,
    pub total_tokens_allocated: u64,
    pub max_tokens: u64,
    pub total_sol_collected: u64,
    pub max_sol: u64,
    pub cliff_timestamp: u64,
    pub vesting_end_timestamp: u64,
    pub is_closed: bool,
    pub bump: u8,
    pub public_sale_price: u64,
}

/// One contributor's entitlement and claim progress.
#[derive(Clone, Copy, Debug)]
pub struct AllocationAccount {
    pub amount: u64,
    pub claimed_amount: u64,
    pub cliff_timestamp: u64,
    pub vesting_end_timestamp: u64,
}

impl PresaleAccount {
    /// The aggregate counters never exceed their caps.
    pub open spec fn wf(self) -> bool {
        self.total_sol_collected <= self.max_sol && self.total_tokens_allocated <= self.max_tokens
    }
}

impl AllocationAccount {
    /// A fresh allocation, as the host creates it on a contributor's first
    /// contribution.
    pub fn new() -> (r: AllocationAccount)
        ensures
            r.amount == 0,
            r.claimed_amount == 0,
            r.cliff_timestamp == 0,
            r.vesting_end_timestamp == 0,
    {
        AllocationAccount { amount: 0, claimed_amount: 0, cliff_timestamp: 0, vesting_end_timestamp: 0 }
    }
}

/// The presale price after the fixed 15% discount, floored.
pub open spec fn discounted_price_spec(public_sale_price: u64) -> int {
    public_sale_price * 85 / 100
}

/// Payment still acceptable before a cap binds: the lamport headroom under
/// `max_sol`, or the lamport value of the token headroom under `max_tokens`,
/// whichever is smaller.
pub open spec fn remaining_cap_spec(p: PresaleAccount) -> int {
    min(
        p.max_sol - p.total_sol_collected,
        (p.max_tokens - p.total_tokens_allocated) * discounted_price_spec(p.public_sale_price),
    )
}

/// Tokens vested by the tranche schedule at `now`: nothing before the cliff;
/// from the cliff on, a tenth of the entitlement upfront plus 9% for each
/// elapsed 30-day month, for at most `VESTING_MONTHS` months.
pub open spec fn tranche_vested_spec(amount: u64, cliff_timestamp: u64, now: u64) -> int {
    if now < cliff_timestamp {
        0
    } else {
        let months = min((now - cliff_timestamp) / SECONDS_PER_MONTH as int, VESTING_MONTHS as int);
        amount / 10 + (amount * 9 / 100) * months
    }
}

/// Tokens claimable by the tranche schedule at `now`: the vested amount less
/// what was already claimed, never negative.
pub open spec fn tranche_claimable_spec(amount: u64, cliff_timestamp: u64, claimed: u64, now: u64) -> int {
    max(tranche_vested_spec(amount, cliff_timestamp, now) - claimed, 0)
}

/// The tranche schedule never vests more than the entitlement.
pub proof fn lemma_tranche_vested_bounds(amount: u64, cliff_timestamp: u64, now: u64)
    ensures
        0 <= tranche_vested_spec(amount, cliff_timestamp, now) <= amount,
{
    if now >= cliff_timestamp {
        let a = amount as int;
        let months = min((now - cliff_timestamp) / SECONDS_PER_MONTH as int, VESTING_MONTHS as int);
        assert(0 <= (now - cliff_timestamp) / SECONDS_PER_MONTH as int) by (nonlinear_arith)
            requires
                now >= cliff_timestamp,
        ;
        assert(10 * (a / 10) <= a && 0 <= a / 10) by (nonlinear_arith)
            requires
                a >= 0,
        ;
        assert(100 * (a * 9 / 100) <= 9 * a && 0 <= a * 9 / 100) by (nonlinear_arith)
            requires
                a >= 0,
        ;
        lemma_mul_inequality(months, 10, a * 9 / 100);
        assert((a * 9 / 100) * months <= (a * 9 / 100) * 10);
        assert(10 * (a / 10) + 10 * ((a * 9 / 100) * 10) <= 10 * a) by (nonlinear_arith)
            requires
                10 * (a / 10) <= a,
                100 * (a * 9 / 100) <= 9 * a,
        ;
        assert(a / 10 + (a * 9 / 100) * months <= a);
        assert(0 <= (a * 9 / 100) * months) by (nonlinear_arith)
            requires
                0 <= a * 9 / 100,
                0 <= months,
        ;
    }
}

/// Computes the discounted presale price, exactly `discounted_price_spec`.
fn discounted_price(public_sale_price: u64) -> (r: u64)
    ensures
        r == discounted_price_spec(public_sale_price),
        r <= public_sale_price,
{
    proof {
        lemma_mul_inequality(85, 100, public_sale_price as int);
        lemma_div_is_ordered(
            public_sale_price as int * 85,
            public_sale_price as int * 100,
            100,
        );
        lemma_div_by_multiple(public_sale_price as int, 100);
        assert(public_sale_price as int * 100 / 100 == public_sale_price as int);
    }
    ((public_sale_price as u128) * 85 / 100) as u64
}

/// Sets up a presale: caps, price, vesting timetable, counters at zero, open.
pub fn initialize_presale(
    token_mint: AccountId,
    admin: AccountId,
    bump: u8,
    public_sale_price: u64,
    max_tokens: u64,
    max_sol: u64,
    cliff_timestamp: u64,
    vesting_end_timestamp: u64,
) -> (r: PresaleAccount)
    ensures
        r.wf(),
        r == (PresaleAccount {
            token_mint,
            admin,
            total_tokens_allocated: 0,
            max_tokens,
            total_sol_collected: 0,
            max_sol,
            cliff_timestamp,
            vesting_end_timestamp,
            is_closed: false,
            bump,
            public_sale_price,
        }),
{
    PresaleAccount {
        token_mint,
        admin,
        total_tokens_allocated: 0,
        max_tokens,
        total_sol_collected: 0,
        max_sol,
        cliff_timestamp,
        vesting_end_timestamp,
        is_closed: false,
        bump,
        public_sale_price,
    }
}

/// Accepts a contribution of `lamports_paid`, clipped to the headroom left
/// under the caps, and credits the contributor with the clipped payment's
/// worth of tokens at the discounted price (floored). Returns the lamports the
/// host must collect from the contributor. A payment beyond the headroom is
/// clipped, never rejected; only a presale with no headroom at all rejects
/// with `PresaleLimitReached`.
pub fn contribute(
    p: &mut PresaleAccount,
    a: &mut AllocationAccount,
    lamports_paid: u64,
) -> (r: Result<u64, CustomError>)
    requires
        old(p).wf(),
    ensures
        final(p).wf(),
        r.is_err() ==> *final(p) == *old(p) && *final(a) == *old(a),
        ({
            let dp = discounted_price_spec(old(p).public_sale_price);
            let cap = remaining_cap_spec(*old(p));
            let accepted = min(lamports_paid as int, cap);
            if old(p).is_closed {
                r == Err::<u64, CustomError>(CustomError::PresaleClosed)
            } else if dp == 0 || lamports_paid as int / dp == 0 {
                r == Err::<u64, CustomError>(CustomError::InvalidContribution)
            } else if cap == 0 {
                r == Err::<u64, CustomError>(CustomError::PresaleLimitReached)
            } else if old(a).amount + accepted / dp > u64::MAX {
                r == Err::<u64, CustomError>(CustomError::MathOverflow)
            } else {
                r == Ok::<u64, CustomError>(accepted as u64)
                && *final(p) == (PresaleAccount {
                    total_sol_collected: (old(p).total_sol_collected + accepted) as u64,
                    total_tokens_allocated: (old(p).total_tokens_allocated + accepted / dp) as u64,
                    ..*old(p)
                })
                && *final(a) == (AllocationAccount {
                    amount: (old(a).amount + accepted / dp) as u64,
                    cliff_timestamp: old(p).cliff_timestamp,
                    vesting_end_timestamp: old(p).vesting_end_timestamp,
                    ..*old(a)
                })
            }
        }),
{
    if p.is_closed {
        return Err(CustomError::PresaleClosed);
    }
    let dp = discounted_price(p.public_sale_price);
    if dp == 0 {
        return Err(CustomError::InvalidContribution);
    }
    if lamports_paid / dp == 0 {
        return Err(CustomError::InvalidContribution);
    }
    let sol_headroom: u64 = p.max_sol - p.total_sol_collected;
    let token_headroom: u64 = p.max_tokens - p.total_tokens_allocated;
    proof {
        lemma_mul_upper_bound(token_headroom as int, u64::MAX as int, dp as int, u64::MAX as int);
    }
    let token_headroom_value: u128 = (token_headroom as u128) * (dp as u128);
    let cap: u128 = if (sol_headroom as u128) <= token_headroom_value {
        sol_headroom as u128
    } else {
        token_headroom_value
    };
    if cap == 0 {
        return Err(CustomError::PresaleLimitReached);
    }
    let accepted: u64 = if (lamports_paid as u128) <= cap {
        lamports_paid
    } else {
        cap as u64
    };
    let tokens: u64 = accepted / dp;
    proof {
        assert(accepted as int <= token_headroom as int * dp as int);
        assert(token_headroom as int * dp as int == dp as int * token_headroom as int);
        lemma_multiply_divide_le(accepted as int, dp as int, token_headroom as int);
    }
    match a.amount.checked_add(tokens) {
        None => Err(CustomError::MathOverflow),
        Some(new_amount) => {
            p.total_sol_collected = p.total_sol_collected + accepted;
            p.total_tokens_allocated = p.total_tokens_allocated + tokens;
            a.amount = new_amount;
            a.cliff_timestamp = p.cliff_timestamp;
            a.vesting_end_timestamp = p.vesting_end_timestamp;
            Ok(accepted)
        },
    }
}

/// Releases tokens against an admin-supplied amount, clamped to the tranche
/// schedule's claimable ceiling recomputed here: a caller-chosen figure can
/// never overdraw the schedule. Returns the tokens the host must transfer.
pub fn claim_tokens(a: &mut AllocationAccount, claimable_now: u64, now: u64) -> (r: Result<
    u64,
    CustomError,
>)
    ensures
        r.is_err() ==> *final(a) == *old(a),
        ({
            let ceiling = tranche_claimable_spec(
                old(a).amount,
                old(a).cliff_timestamp,
                old(a).claimed_amount,
                now,
            );
            let transferred = min(claimable_now as int, ceiling);
            if now < old(a).cliff_timestamp {
                r == Err::<u64, CustomError>(CustomError::CliffNotReached)
            } else if transferred == 0 {
                r == Err::<u64, CustomError>(CustomError::NothingToClaim)
            } else {
                r == Ok::<u64, CustomError>(transferred as u64)
                && *final(a) == (AllocationAccount {
                    claimed_amount: (old(a).claimed_amount + transferred) as u64,
                    ..*old(a)
                })
            }
        }),
{
    if now < a.cliff_timestamp {
        return Err(CustomError::CliffNotReached);
    }
    let ceiling = tranche_claimable(a, now);
    let transferred: u64 = if claimable_now <= ceiling {
        claimable_now
    } else {
        ceiling
    };
    if transferred == 0 {
        return Err(CustomError::NothingToClaim);
    }
    proof {
        lemma_tranche_vested_bounds(a.amount, a.cliff_timestamp, now);
    }
    a.claimed_amount = a.claimed_amount + transferred;
    Ok(transferred)
}

/// Releases every tranche due at `now` in one step: the upfront tenth once the
/// cliff is reached, plus 9% of the entitlement per elapsed 30-day month, less
/// what was already claimed. Returns the tokens the host must transfer.
pub fn airdrop_tokens(a: &mut AllocationAccount, now: u64) -> (r: Result<u64, CustomError>)
    ensures
        r.is_err() ==> *final(a) == *old(a),
        ({
            let claimable = tranche_claimable_spec(
                old(a).amount,
                old(a).cliff_timestamp,
                old(a).claimed_amount,
                now,
            );
            if now < old(a).cliff_timestamp {
                r == Err::<u64, CustomError>(CustomError::CliffNotReached)
            } else if claimable == 0 {
                r == Err::<u64, CustomError>(CustomError::NothingToClaim)
            } else {
                r == Ok::<u64, CustomError>(claimable as u64)
                && *final(a) == (AllocationAccount {
                    claimed_amount: tranche_vested_spec(
                        old(a).amount,
                        old(a).cliff_timestamp,
                        now,
                    ) as u64,
                    ..*old(a)
                })
            }
        }),
{
    if now < a.cliff_timestamp {
        return Err(CustomError::CliffNotReached);
    }
    let claimable = tranche_claimable(a, now);
    if claimable == 0 {
        return Err(CustomError::NothingToClaim);
    }
    proof {
        lemma_tranche_vested_bounds(a.amount, a.cliff_timestamp, now);
    }
    a.claimed_amount = a.claimed_amount + claimable;
    Ok(claimable)
}

/// Computes the tranche schedule's claimable amount at `now`, for an
/// allocation whose cliff has been reached.
fn tranche_claimable(a: &AllocationAccount, now: u64) -> (r: u64)
    requires
        now >= a.cliff_timestamp,
    ensures
        r == tranche_claimable_spec(a.amount, a.cliff_timestamp, a.claimed_amount, now),
{
    proof {
        lemma_tranche_vested_bounds(a.amount, a.cliff_timestamp, now);
    }
    let months_elapsed: u64 = (now - a.cliff_timestamp) / SECONDS_PER_MONTH;
    let months: u64 = if months_elapsed <= VESTING_MONTHS {
        months_elapsed
    } else {
        VESTING_MONTHS
    };
    let upfront: u64 = a.amount / 10;
    let monthly: u64 = ((a.amount as u128) * 9 / 100) as u64;
    proof {
        assert(a.amount as int * 9 / 100 <= a.amount as int) by (nonlinear_arith)
            requires
                a.amount >= 0,
        ;
    }
    let vested: u64 = (upfront as u128 + (monthly as u128) * (months as u128)) as u64;
    vested.saturating_sub(a.claimed_amount)
}

/// Admin-only price update while the presale is open.
pub fn update_presale_price(
    p: &mut PresaleAccount,
    caller: AccountId,
    new_public_sale_price: u64,
) -> (r: Result<(), CustomError>)
    ensures
        r.is_err() ==> *final(p) == *old(p),
        if old(p).is_closed {
            r == Err::<(), CustomError>(CustomError::PresaleClosed)
        } else if caller != old(p).admin {
            r == Err::<(), CustomError>(CustomError::Unauthorized)
        } else {
            r == Ok::<(), CustomError>(())
            && *final(p) == (PresaleAccount { public_sale_price: new_public_sale_price, ..*old(p) })
        },
{
    if p.is_closed {
        return Err(CustomError::PresaleClosed);
    }
    if caller != p.admin {
        return Err(CustomError::Unauthorized);
    }
    p.public_sale_price = new_public_sale_price;
    Ok(())
}

/// Refunds part of an allocation before vesting has begun: only while the
/// presale is closed and strictly before the cliff. The allocation and both
/// aggregate counters shrink by what leaves — the tokens returned and their
/// lamport value at the discounted price. Returns the lamports the host must
/// pay back; the host also returns the tokens to the presale wallet.
pub fn refund_tokens(
    p: &mut PresaleAccount,
    a: &mut AllocationAccount,
    token_amount: u64,
    now: u64,
) -> (r: Result<u64, CustomError>)
    requires
        old(p).wf(),
    ensures
        final(p).wf(),
        r.is_err() ==> *final(p) == *old(p) && *final(a) == *old(a),
        ({
            let dp = discounted_price_spec(old(p).public_sale_price);
            let lamports = token_amount * dp;
            if !old(p).is_closed {
                r == Err::<u64, CustomError>(CustomError::PresaleClosed)
            } else if now >= old(a).cliff_timestamp {
                r == Err::<u64, CustomError>(CustomError::VestingStarted)
            } else if old(a).amount < token_amount {
                r == Err::<u64, CustomError>(CustomError::InsufficientBalance)
            } else if lamports > u64::MAX {
                r == Err::<u64, CustomError>(CustomError::MathOverflow)
            } else if old(p).total_sol_collected < lamports
                || old(p).total_tokens_allocated < token_amount {
                r == Err::<u64, CustomError>(CustomError::MathOverflow)
            } else {
                r == Ok::<u64, CustomError>(lamports as u64)
                && *final(a) == (AllocationAccount {
                    amount: (old(a).amount - token_amount) as u64,
                    ..*old(a)
                })
                && *final(p) == (PresaleAccount {
                    total_sol_collected: (old(p).total_sol_collected - lamports) as u64,
                    total_tokens_allocated: (old(p).total_tokens_allocated - token_amount) as u64,
                    ..*old(p)
                })
            }
        }),
{
    if !p.is_closed {
        return Err(CustomError::PresaleClosed);
    }
    if now >= a.cliff_timestamp {
        return Err(CustomError::VestingStarted);
    }
    if a.amount < token_amount {
        return Err(CustomError::InsufficientBalance);
    }
    let dp = discounted_price(p.public_sale_price);
    proof {
        lemma_mul_upper_bound(token_amount as int, u64::MAX as int, dp as int, u64::MAX as int);
    }
    let lamports: u128 = (token_amount as u128) * (dp as u128);
    if lamports > u64::MAX as u128 {
        return Err(CustomError::MathOverflow);
    }
    let lamports_to_refund = lamports as u64;
    if p.total_sol_collected < lamports_to_refund || p.total_tokens_allocated < token_amount {
        return Err(CustomError::MathOverflow);
    }
    a.amount = a.amount - token_amount;
    p.total_sol_collected = p.total_sol_collected - lamports_to_refund;
    p.total_tokens_allocated = p.total_tokens_allocated - token_amount;
    Ok(lamports_to_refund)
}

/// Admin-only, one-way close. Closing an already-closed presale is refused
/// with `PresaleClosed` and changes nothing, so the transition can never be
/// undone or repeated silently.
pub fn close_presale(p: &mut PresaleAccount, caller: AccountId) -> (r: Result<(), CustomError>)
    ensures
        r.is_err() ==> *final(p) == *old(p),
        if caller != old(p).admin {
            r == Err::<(), CustomError>(CustomError::Unauthorized)
        } else if old(p).is_closed {
            r == Err::<(), CustomError>(CustomError::PresaleClosed)
        } else {
            r == Ok::<(), CustomError>(()) && *final(p) == (PresaleAccount {
                is_closed: true,
                ..*old(p)
            })
        },
{
    if caller != p.admin {
        return Err(CustomError::Unauthorized);
    }
    if p.is_closed {
        return Err(CustomError::PresaleClosed);
    }
    p.is_closed = true;
    Ok(())
}

} // verus!
