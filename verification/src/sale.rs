//! A timed presale with an oracle-fed price: purchases are validated against a
//! sale window, a pause flag, per-user minimum and maximum buy amounts and a
//! hard cap, all in lamports converted at the resolved SOL price; entitlements
//! vest by the cliff-plus-interval formula and can be refunded, while still
//! unvested, after the sale ends.
//!
//! Every operation validates first and mutates only on success: on an error
//! the config and the vesting record are exactly what they were. The host
//! performs the transfers a successful call returns.

use vstd::prelude::*;

verus! {

use vstd::math::max;
use crate::AccountId;
use crate::oracle::{
    get_price_from_oracle,
    calculate_sol_price,
    resolved_price_spec,
    sol_price_calc_spec,
    LAMPORTS_PER_SOL,
    MAX_MANUAL_PRICE,
};
use crate::vesting::{calculate_vested_amount, lemma_vested_amount_bounds, vested_amount_spec};

#[derive(Clone, Copy, Debug, PartialEq, Eq, Structural)]
pub enum ErrorCode {
    /// The sale is not currently active.
    SaleNotActive,
    /// No tokens are available for claiming.
    NoTokensToClaim,
    /// The presale has not ended.
    PresaleNotEnded,
    /// Refunds are not available yet.
    RefundNotAvailable,
    /// Not enough unclaimed, unvested tokens for the requested refund.
    InsufficientRefundBalance,
    /// The program does not hold enough lamports for the refund.
    InsufficientProgramBalance,
    /// All airdrops have been completed.
    AirdropCompleted,
    /// The next airdrop is not due yet.
    AirdropNotDue,
    /// Invalid vesting parameters.
    InvalidVestingParameters,
    /// Invalid presale timing.
    InvalidPresaleTiming,
    /// Insufficient funds for the purchase.
    InsufficientFunds,
    /// An intermediate product or counter would exceed its machine width.
    MathOverflow,
    /// An intermediate product or counter would exceed its machine width.
    BadMath,
    /// The price feed is unavailable and no manual override is set.
    PriceFeedUnavailable,
    /// The airdrop percentage table is malformed.
    AirdropConfigurationError,
    /// The purchase is below the minimum buy amount.
    BelowMinimumPurchase,
    /// The purchase exceeds the per-user maximum.
    ExceedsMaximumPurchase,
    /// The presale hard cap has been reached.
    HardCapReached,
    /// The caller is not the presale authority.
    UnauthorizedAccess,
    /// The price must be greater than zero.
    InvalidPrice,
    /// The batch exceeds the maximum size.
    BatchTooLarge,
    /// A user index points outside the supplied accounts.
    InvalidUserAccountIndex,
    /// The presale is paused.
    PresalePaused,
}

/// Global state of the timed presale: the sale window, prices and limits, the
/// vesting timetable, the airdrop tranche table, and the aggregate counter.
#[derive(Debug)]
pub struct PresaleAccount {
    pub presale_start: i64,
    pub presale_end: i64,
    pub public_sale_start: i64,
    /// Price per token in USD cents.
    pub price: u64,
    pub max_allocation: u64,
    pub cliff_period: i64,
    pub vesting_period: i64,
    pub vesting_interval: i64,
    pub total_airdrop_periods: u8,
    pub airdrop_percentages: Vec<u64>,
    pub total_sold_sol: u64,
    pub min_buy_amount_sol: u64,
    pub max_buy_amount_sol: u64,
    pub hard_cap_sol: u64,
    pub authority: AccountId,
    pub manual_price_override: Option<u64>,
    pub paused: bool,
}

/// One buyer's entitlement, claim progress and airdrop progress.
#[derive(Clone, Copy, Debug)]
pub struct UserVesting {
    pub total_amount: u64,
    pub claimed_amount: u64,
    pub start_time: i64,
    pub airdrops_completed: u8,
    pub total_purchased_sol: u64,
}

/// Sum of a percentage table.
pub open spec fn sum_seq(s: Seq<u64>) -> int
    decreases s.len(),
{
    if s.len() == 0 {
        0
    } else {
        sum_seq(s.drop_last()) + s.last()
    }
}

/// A sum of 64-bit values is bounded by the length times the largest value.
proof fn lemma_sum_seq_bounds(s: Seq<u64>)
    ensures
        0 <= sum_seq(s) <= s.len() * u64::MAX,
    decreases s.len(),
{
    if s.len() > 0 {
        lemma_sum_seq_bounds(s.drop_last());
        assert((s.len() - 1) * u64::MAX + u64::MAX == s.len() * u64::MAX) by (nonlinear_arith);
    }
}

/// Tokens claimable at `now`: the vested amount less what was already claimed,
/// never negative.
pub open spec fn claimable_spec(u: UserVesting, p: PresaleAccount, now: i64) -> int {
    max(
        vested_amount_spec(
            u.total_amount,
            u.start_time,
            p.vesting_period,
            p.vesting_interval,
            now,
        ) - u.claimed_amount,
        0,
    )
}

/// Tokens refundable at `now`: the entitlement less what is claimable and what
/// was already claimed, never negative.
pub open spec fn refundable_spec(u: UserVesting, p: PresaleAccount, now: i64) -> int {
    max(max(u.total_amount - claimable_spec(u, p, now), 0) - u.claimed_amount, 0)
}

/// Validates the presale parameters and builds the config: the tranche table
/// must be non-empty, within the element cap, free of zero entries and sum to
/// at most 100; the vesting interval must be nonzero and fit inside the
/// nonzero period, the cliff inside the period; and the sale window must be
/// non-empty and precede the public sale.
#[verifier::loop_isolation(false)]
pub fn initialize(
    authority: AccountId,
    presale_start: i64,
    presale_end: i64,
    public_sale_start: i64,
    price: u64,
    max_allocation: u64,
    cliff_period: i64,
    vesting_period: i64,
    vesting_interval: i64,
    airdrop_percentages: Vec<u64>,
    max_airdrop_elements: u8,
) -> (r: Result<PresaleAccount, ErrorCode>)
    ensures
        if airdrop_percentages@.len() > max_airdrop_elements {
            r == Err::<PresaleAccount, ErrorCode>(ErrorCode::AirdropConfigurationError)
        } else if sum_seq(airdrop_percentages@) > 100 {
            r == Err::<PresaleAccount, ErrorCode>(ErrorCode::AirdropConfigurationError)
        } else if vesting_period == 0 || vesting_interval == 0 {
            r == Err::<PresaleAccount, ErrorCode>(ErrorCode::InvalidVestingParameters)
        } else if vesting_interval > vesting_period {
            r == Err::<PresaleAccount, ErrorCode>(ErrorCode::InvalidVestingParameters)
        } else if cliff_period > vesting_period {
            r == Err::<PresaleAccount, ErrorCode>(ErrorCode::InvalidVestingParameters)
        } else if presale_start >= presale_end {
            r == Err::<PresaleAccount, ErrorCode>(ErrorCode::InvalidPresaleTiming)
        } else if public_sale_start <= presale_end {
            r == Err::<PresaleAccount, ErrorCode>(ErrorCode::InvalidPresaleTiming)
        } else if airdrop_percentages@.len() == 0 {
            r == Err::<PresaleAccount, ErrorCode>(ErrorCode::AirdropConfigurationError)
        } else if exists|i: int| 0 <= i < airdrop_percentages@.len() && airdrop_percentages@[i] == 0 {
            r == Err::<PresaleAccount, ErrorCode>(ErrorCode::AirdropConfigurationError)
        } else {
            r matches Ok(cfg)
            && cfg.presale_start == presale_start
            && cfg.presale_end == presale_end
            && cfg.public_sale_start == public_sale_start
            && cfg.price == price
            && cfg.max_allocation == max_allocation
            && cfg.cliff_period == cliff_period
            && cfg.vesting_period == vesting_period
            && cfg.vesting_interval == vesting_interval
            && cfg.total_airdrop_periods == airdrop_percentages@.len()
            && cfg.airdrop_percentages@ == airdrop_percentages@
            && cfg.total_sold_sol == 0
            && cfg.min_buy_amount_sol == 0
            && cfg.max_buy_amount_sol == 0
            && cfg.hard_cap_sol == 0
            && cfg.authority == authority
            && cfg.manual_price_override is None
            && !cfg.paused
        },
{
    if airdrop_percentages.len() > max_airdrop_elements as usize {
        return Err(ErrorCode::AirdropConfigurationError);
    }
    proof {
        lemma_sum_seq_bounds(airdrop_percentages@);
    }
    let mut total_percentage: u128 = 0;
    let mut i: usize = 0;
    while i < airdrop_percentages.len()
        invariant
            0 <= i <= airdrop_percentages@.len(),
            airdrop_percentages@.len() <= max_airdrop_elements,
            total_percentage == sum_seq(airdrop_percentages@.take(i as int)),
            total_percentage <= i * u64::MAX,
        decreases airdrop_percentages@.len() - i,
    {
        proof {
            assert(airdrop_percentages@.take(i + 1).drop_last() =~= airdrop_percentages@.take(
            i as int));
            assert((i + 1) * u64::MAX == i * u64::MAX + u64::MAX) by (nonlinear_arith);
        }
        total_percentage = total_percentage + airdrop_percentages[i] as u128;
        i = i + 1;
    }
    proof {
        assert(airdrop_percentages@.take(airdrop_percentages@.len() as int)
            =~= airdrop_percentages@);
    }
    if total_percentage > 100 {
        return Err(ErrorCode::AirdropConfigurationError);
    }
    if vesting_period == 0 || vesting_interval == 0 {
        return Err(ErrorCode::InvalidVestingParameters);
    }
    if vesting_interval > vesting_period {
        return Err(ErrorCode::InvalidVestingParameters);
    }
    if cliff_period > vesting_period {
        return Err(ErrorCode::InvalidVestingParameters);
    }
    if presale_start >= presale_end {
        return Err(ErrorCode::InvalidPresaleTiming);
    }
    if public_sale_start <= presale_end {
        return Err(ErrorCode::InvalidPresaleTiming);
    }
    if airdrop_percentages.len() == 0 {
        return Err(ErrorCode::AirdropConfigurationError);
    }
    let mut j: usize = 0;
    while j < airdrop_percentages.len()
        invariant
            0 <= j <= airdrop_percentages@.len(),
            forall|k: int| 0 <= k < j ==> airdrop_percentages@[k] != 0,
        decreases airdrop_percentages@.len() - j,
    {
        if airdrop_percentages[j] == 0 {
            proof {
                assert(0 <= j < airdrop_percentages@.len() && airdrop_percentages@[j as int] == 0);
            }
            return Err(ErrorCode::AirdropConfigurationError);
        }
        j = j + 1;
    }
    let total_airdrop_periods = airdrop_percentages.len() as u8;
    Ok(
        PresaleAccount {
            presale_start,
            presale_end,
            public_sale_start,
            price,
            max_allocation,
            cliff_period,
            vesting_period,
            vesting_interval,
            total_airdrop_periods,
            airdrop_percentages,
            total_sold_sol: 0,
            min_buy_amount_sol: 0,
            max_buy_amount_sol: 0,
            hard_cap_sol: 0,
            authority,
            manual_price_override: None,
            paused: false,
        },
    )
}

/// Admin-only update of the price and the buy limits; a parameter left `None`
/// keeps its current value.
pub fn update_presale_params(
    p: &mut PresaleAccount,
    caller: AccountId,
    new_price: Option<u64>,
    new_min_buy_amount: Option<u64>,
    new_max_buy_amount: Option<u64>,
    new_hard_cap: Option<u64>,
) -> (r: Result<(), ErrorCode>)
    ensures
        if caller != old(p).authority {
            r == Err::<(), ErrorCode>(ErrorCode::UnauthorizedAccess) && *final(p) == *old(p)
        } else {
            r == Ok::<(), ErrorCode>(())
            && final(p).price == (if new_price is Some { new_price->0 } else { old(p).price })
            && final(p).min_buy_amount_sol == (if new_min_buy_amount is Some {
                new_min_buy_amount->0
            } else {
                old(p).min_buy_amount_sol
            })
            && final(p).max_buy_amount_sol == (if new_max_buy_amount is Some {
                new_max_buy_amount->0
            } else {
                old(p).max_buy_amount_sol
            })
            && final(p).hard_cap_sol == (if new_hard_cap is Some {
                new_hard_cap->0
            } else {
                old(p).hard_cap_sol
            })
            && final(p).presale_start == old(p).presale_start
            && final(p).presale_end == old(p).presale_end
            && final(p).public_sale_start == old(p).public_sale_start
            && final(p).max_allocation == old(p).max_allocation
            && final(p).cliff_period == old(p).cliff_period
            && final(p).vesting_period == old(p).vesting_period
            && final(p).vesting_interval == old(p).vesting_interval
            && final(p).total_airdrop_periods == old(p).total_airdrop_periods
            && final(p).airdrop_percentages@ == old(p).airdrop_percentages@
            && final(p).total_sold_sol == old(p).total_sold_sol
            && final(p).authority == old(p).authority
            && final(p).manual_price_override == old(p).manual_price_override
            && final(p).paused == old(p).paused
        },
{
    if caller != p.authority {
        return Err(ErrorCode::UnauthorizedAccess);
    }
    match new_price {
        Some(price) => {
            p.price = price;
        },
        None => {},
    }
    match new_min_buy_amount {
        Some(min_buy) => {
            p.min_buy_amount_sol = min_buy;
        },
        None => {},
    }
    match new_max_buy_amount {
        Some(max_buy) => {
            p.max_buy_amount_sol = max_buy;
        },
        None => {},
    }
    match new_hard_cap {
        Some(hard_cap) => {
            p.hard_cap_sol = hard_cap;
        },
        None => {},
    }
    Ok(())
}

/// Admin-only direct price update; a zero price is rejected, `None` changes
/// nothing.
pub fn update_presale_discount(
    p: &mut PresaleAccount,
    caller: AccountId,
    new_price: Option<u64>,
) -> (r: Result<(), ErrorCode>)
    ensures
        r.is_err() ==> *final(p) == *old(p),
        if caller != old(p).authority {
            r == Err::<(), ErrorCode>(ErrorCode::UnauthorizedAccess)
        } else if new_price matches Some(price) && price == 0 {
            r == Err::<(), ErrorCode>(ErrorCode::InvalidPrice)
        } else {
            r == Ok::<(), ErrorCode>(())
            && final(p).price == (if new_price is Some { new_price->0 } else { old(p).price })
            && *final(p) == (PresaleAccount { price: final(p).price, ..*old(p) })
        },
{
    if caller != p.authority {
        return Err(ErrorCode::UnauthorizedAccess);
    }
    match new_price {
        Some(price) => {
            if price == 0 {
                return Err(ErrorCode::InvalidPrice);
            }
            p.price = price;
        },
        None => {},
    }
    Ok(())
}

/// Admin-only pause switch.
pub fn set_pause_state(p: &mut PresaleAccount, caller: AccountId, paused: bool) -> (r: Result<
    (),
    ErrorCode,
>)
    ensures
        r.is_err() ==> *final(p) == *old(p),
        if caller != old(p).authority {
            r == Err::<(), ErrorCode>(ErrorCode::UnauthorizedAccess)
        } else {
            r == Ok::<(), ErrorCode>(()) && *final(p) == (PresaleAccount { paused, ..*old(p) })
        },
{
    if caller != p.authority {
        return Err(ErrorCode::UnauthorizedAccess);
    }
    p.paused = paused;
    Ok(())
}

/// Admin-only manual price override: a value must be nonzero and at most
/// `MAX_MANUAL_PRICE`; `None` clears the override.
pub fn update_manual_price_override(
    p: &mut PresaleAccount,
    caller: AccountId,
    new_price: Option<u64>,
) -> (r: Result<(), ErrorCode>)
    ensures
        r.is_err() ==> *final(p) == *old(p),
        if caller != old(p).authority {
            r == Err::<(), ErrorCode>(ErrorCode::UnauthorizedAccess)
        } else if new_price matches Some(price) && (price == 0 || price > MAX_MANUAL_PRICE) {
            r == Err::<(), ErrorCode>(ErrorCode::InvalidPrice)
        } else {
            r == Ok::<(), ErrorCode>(()) && *final(p) == (PresaleAccount {
                manual_price_override: new_price,
                ..*old(p)
            })
        },
{
    if caller != p.authority {
        return Err(ErrorCode::UnauthorizedAccess);
    }
    match new_price {
        Some(price) => {
            if price == 0 || price > MAX_MANUAL_PRICE {
                return Err(ErrorCode::InvalidPrice);
            }
        },
        None => {},
    }
    p.manual_price_override = new_price;
    Ok(())
}

/// Buys `amount` tokens at the resolved SOL price during the sale window.
/// The cost in lamports is checked against the buyer's balance, the per-call
/// minimum, the per-user maximum and the hard cap; on success the aggregate
/// and per-user counters advance and the host collects the returned lamports
/// from the buyer.
pub fn purchase(
    p: &mut PresaleAccount,
    u: &mut UserVesting,
    amount: u64,
    now: i64,
    oracle_price: Option<i64>,
    buyer_lamports: u64,
) -> (r: Result<u64, ErrorCode>)
    ensures
        r.is_err() ==> *final(p) == *old(p) && *final(u) == *old(u),
        ({
            let resolved = resolved_price_spec(oracle_price, old(p).manual_price_override);
            if old(p).paused {
                r == Err::<u64, ErrorCode>(ErrorCode::PresalePaused)
            } else if !(now >= old(p).presale_start && now <= old(p).presale_end) {
                r == Err::<u64, ErrorCode>(ErrorCode::SaleNotActive)
            } else if resolved is Err {
                r == Err::<u64, ErrorCode>(resolved->Err_0)
            } else {
                let sol_price = resolved->Ok_0;
                if old(p).price * LAMPORTS_PER_SOL > u64::MAX {
                    r == Err::<u64, ErrorCode>(ErrorCode::MathOverflow)
                } else {
                    let token_price = old(p).price * LAMPORTS_PER_SOL / sol_price as int;
                    if amount * token_price > u64::MAX {
                        r == Err::<u64, ErrorCode>(ErrorCode::MathOverflow)
                    } else {
                        let cost = amount * token_price;
                        if buyer_lamports < cost {
                            r == Err::<u64, ErrorCode>(ErrorCode::InsufficientFunds)
                        } else if cost < old(p).min_buy_amount_sol {
                            r == Err::<u64, ErrorCode>(ErrorCode::BelowMinimumPurchase)
                        } else if old(u).total_purchased_sol + cost > u64::MAX {
                            r == Err::<u64, ErrorCode>(ErrorCode::MathOverflow)
                        } else if old(u).total_purchased_sol + cost > old(p).max_buy_amount_sol {
                            r == Err::<u64, ErrorCode>(ErrorCode::ExceedsMaximumPurchase)
                        } else if old(p).total_sold_sol + cost > u64::MAX {
                            r == Err::<u64, ErrorCode>(ErrorCode::MathOverflow)
                        } else if old(p).total_sold_sol + cost > old(p).hard_cap_sol {
                            r == Err::<u64, ErrorCode>(ErrorCode::HardCapReached)
                        } else if amount == 0 {
                            r == Err::<u64, ErrorCode>(ErrorCode::BelowMinimumPurchase)
                        } else if old(p).min_buy_amount_sol * sol_price > u64::MAX {
                            r == Err::<u64, ErrorCode>(ErrorCode::BadMath)
                        } else if old(p).price == 0 {
                            r == Err::<u64, ErrorCode>(ErrorCode::BadMath)
                        } else if amount < old(p).min_buy_amount_sol * sol_price / old(p).price as int {
                            r == Err::<u64, ErrorCode>(ErrorCode::BelowMinimumPurchase)
                        } else if old(u).total_amount + amount > u64::MAX {
                            r == Err::<u64, ErrorCode>(ErrorCode::BadMath)
                        } else {
                            r == Ok::<u64, ErrorCode>(cost as u64)
                            && *final(p) == (PresaleAccount {
                                total_sold_sol: (old(p).total_sold_sol + cost) as u64,
                                ..*old(p)
                            })
                            && *final(u) == (UserVesting {
                                total_amount: (old(u).total_amount + amount) as u64,
                                total_purchased_sol: (old(u).total_purchased_sol + cost) as u64,
                                ..*old(u)
                            })
                        }
                    }
                }
            }
        }),
{
    if p.paused {
        return Err(ErrorCode::PresalePaused);
    }
    if !(now >= p.presale_start && now <= p.presale_end) {
        return Err(ErrorCode::SaleNotActive);
    }
    let sol_price_in_usd = match get_price_from_oracle(oracle_price, p.manual_price_override) {
        Ok(price) => price,
        Err(e) => {
            return Err(e);
        },
    };
    let token_price_in_sol = match p.price.checked_mul(LAMPORTS_PER_SOL) {
        None => {
            return Err(ErrorCode::MathOverflow);
        },
        Some(scaled) => scaled / sol_price_in_usd,
    };
    let total_cost_in_sol = match amount.checked_mul(token_price_in_sol) {
        None => {
            return Err(ErrorCode::MathOverflow);
        },
        Some(cost) => cost,
    };
    if buyer_lamports < total_cost_in_sol {
        return Err(ErrorCode::InsufficientFunds);
    }
    if total_cost_in_sol < p.min_buy_amount_sol {
        return Err(ErrorCode::BelowMinimumPurchase);
    }
    let new_purchased = match u.total_purchased_sol.checked_add(total_cost_in_sol) {
        None => {
            return Err(ErrorCode::MathOverflow);
        },
        Some(v) => v,
    };
    if new_purchased > p.max_buy_amount_sol {
        return Err(ErrorCode::ExceedsMaximumPurchase);
    }
    let new_sold = match p.total_sold_sol.checked_add(total_cost_in_sol) {
        None => {
            return Err(ErrorCode::MathOverflow);
        },
        Some(v) => v,
    };
    if new_sold > p.hard_cap_sol {
        return Err(ErrorCode::HardCapReached);
    }
    if amount == 0 {
        return Err(ErrorCode::BelowMinimumPurchase);
    }
    let scaled_min = match p.min_buy_amount_sol.checked_mul(sol_price_in_usd) {
        None => {
            return Err(ErrorCode::BadMath);
        },
        Some(v) => v,
    };
    if p.price == 0 {
        return Err(ErrorCode::BadMath);
    }
    let min_token_purchase = scaled_min / p.price;
    if amount < min_token_purchase {
        return Err(ErrorCode::BelowMinimumPurchase);
    }
    let new_total = match u.total_amount.checked_add(amount) {
        None => {
            return Err(ErrorCode::BadMath);
        },
        Some(v) => v,
    };
    p.total_sold_sol = new_sold;
    u.total_amount = new_total;
    u.total_purchased_sol = new_purchased;
    Ok(total_cost_in_sol)
}

/// Refunds `refund_amount` still-unvested tokens after the sale has ended:
/// the amount must fit inside the entitlement less what is claimable and what
/// was claimed, and the program must hold enough lamports at the resolved
/// price. On success the entitlement shrinks by the tokens returned, the
/// aggregate SOL counter by their lamport value, and the host pays the
/// returned lamports back to the buyer.
pub fn refund(
    p: &mut PresaleAccount,
    u: &mut UserVesting,
    refund_amount: u64,
    now: i64,
    oracle_price: Option<i64>,
    program_lamports: u64,
) -> (r: Result<u64, ErrorCode>)
    ensures
        r.is_err() ==> *final(p) == *old(p) && *final(u) == *old(u),
        ({
            let refundable = refundable_spec(*old(u), *old(p), now);
            let resolved = resolved_price_spec(oracle_price, old(p).manual_price_override);
            if now < old(p).presale_end {
                r == Err::<u64, ErrorCode>(ErrorCode::RefundNotAvailable)
            } else if refund_amount == 0 || refundable == 0 || refund_amount > refundable {
                r == Err::<u64, ErrorCode>(ErrorCode::InsufficientRefundBalance)
            } else if resolved is Err {
                r == Err::<u64, ErrorCode>(resolved->Err_0)
            } else {
                let conversion = sol_price_calc_spec(refund_amount, old(p).price, resolved->Ok_0);
                if conversion is Err {
                    r == Err::<u64, ErrorCode>(conversion->Err_0)
                } else {
                    let refund_sol = conversion->Ok_0;
                    if program_lamports < refund_sol {
                        r == Err::<u64, ErrorCode>(ErrorCode::InsufficientProgramBalance)
                    } else if old(p).total_sold_sol < refund_sol {
                        r == Err::<u64, ErrorCode>(ErrorCode::MathOverflow)
                    } else {
                        r == Ok::<u64, ErrorCode>(refund_sol)
                        && *final(u) == (UserVesting {
                            total_amount: (old(u).total_amount - refund_amount) as u64,
                            ..*old(u)
                        })
                        && *final(p) == (PresaleAccount {
                            total_sold_sol: (old(p).total_sold_sol - refund_sol) as u64,
                            ..*old(p)
                        })
                    }
                }
            }
        }),
{
    if now < p.presale_end {
        return Err(ErrorCode::RefundNotAvailable);
    }
    let vested = calculate_vested_amount(
        u.total_amount,
        u.start_time,
        p.vesting_period,
        p.vesting_interval,
        now,
    );
    let claimable_tokens = vested.saturating_sub(u.claimed_amount);
    let refundable_tokens = u.total_amount.saturating_sub(claimable_tokens).saturating_sub(
        u.claimed_amount,
    );
    if refund_amount == 0 || refundable_tokens == 0 || refund_amount > refundable_tokens {
        return Err(ErrorCode::InsufficientRefundBalance);
    }
    let sol_price_in_usd = match get_price_from_oracle(oracle_price, p.manual_price_override) {
        Ok(price) => price,
        Err(e) => {
            return Err(e);
        },
    };
    let refund_sol = match calculate_sol_price(refund_amount, p.price, sol_price_in_usd) {
        Ok(v) => v,
        Err(e) => {
            return Err(e);
        },
    };
    if program_lamports < refund_sol {
        return Err(ErrorCode::InsufficientProgramBalance);
    }
    if p.total_sold_sol < refund_sol {
        return Err(ErrorCode::MathOverflow);
    }
    u.total_amount = u.total_amount - refund_amount;
    p.total_sold_sol = p.total_sold_sol - refund_sol;
    Ok(refund_sol)
}

/// Claims every vested, not-yet-claimed token at `now`; fails when nothing is
/// claimable, leaving the record untouched. On success `claimed_amount`
/// advances to the vested amount and the host transfers the returned tokens.
pub fn claim(p: &PresaleAccount, u: &mut UserVesting, now: i64) -> (r: Result<u64, ErrorCode>)
    ensures
        r.is_err() ==> *final(u) == *old(u),
        ({
            let vested = vested_amount_spec(
                old(u).total_amount,
                old(u).start_time,
                p.vesting_period,
                p.vesting_interval,
                now,
            );
            if vested <= old(u).claimed_amount {
                r == Err::<u64, ErrorCode>(ErrorCode::NoTokensToClaim)
            } else {
                r == Ok::<u64, ErrorCode>((vested - old(u).claimed_amount) as u64)
                && *final(u) == (UserVesting { claimed_amount: vested as u64, ..*old(u) })
            }
        }),
{
    let vested_amount = calculate_vested_amount(
        u.total_amount,
        u.start_time,
        p.vesting_period,
        p.vesting_interval,
        now,
    );
    let claimable_amount = vested_amount.saturating_sub(u.claimed_amount);
    if claimable_amount > 0 {
        u.claimed_amount = u.claimed_amount + claimable_amount;
        Ok(claimable_amount)
    } else {
        Err(ErrorCode::NoTokensToClaim)
    }
}

/// The amount claimable at `now`: vested less already claimed, never negative.
pub fn calculate_claimable(p: &PresaleAccount, u: &UserVesting, now: i64) -> (r: u64)
    ensures
        r == claimable_spec(*u, *p, now),
{
    let vested_amount = calculate_vested_amount(
        u.total_amount,
        u.start_time,
        p.vesting_period,
        p.vesting_interval,
        now,
    );
    vested_amount.saturating_sub(u.claimed_amount)
}

/// Claiming twice at one instant cannot pay twice: once a successful claim has
/// advanced `claimed_amount` to the vested amount, nothing further is vested
/// and unclaimed at that same instant, so a second claim must fail.
pub proof fn lemma_no_double_claim(u: UserVesting, p: PresaleAccount, now: i64)
    requires
        vested_amount_spec(
            u.total_amount,
            u.start_time,
            p.vesting_period,
            p.vesting_interval,
            now,
        ) > u.claimed_amount,
    ensures
        ({
            let vested = vested_amount_spec(
                u.total_amount,
                u.start_time,
                p.vesting_period,
                p.vesting_interval,
                now,
            );
            let after = UserVesting { claimed_amount: vested as u64, ..u };
            claimable_spec(after, p, now) == 0
        }),
{
    lemma_vested_amount_bounds(
        u.total_amount,
        u.start_time,
        p.vesting_period,
        p.vesting_interval,
        now,
    );
}

} // verus!
