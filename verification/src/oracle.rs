//! Price resolution for the timed presale: a raw oracle reading is trusted
//! only when strictly positive, a manual override supplied by the admin stands
//! in when the oracle fails, and the override is itself validated before use.
//! The host reads the feed; this module only decides what the reading means.

use vstd::prelude::*;

verus! {

use crate::sale::ErrorCode;

/// Largest manual price override accepted, in USD cents.
pub const MAX_MANUAL_PRICE: u64 = 1_000_000;

/// Lamports in one SOL, the scale between SOL prices and lamport amounts.
pub const LAMPORTS_PER_SOL: u64 = 1_000_000_000;

/// What a manual override resolves to when the oracle gives nothing usable:
/// a zero or out-of-range override is rejected, no override at all leaves the
/// price unavailable.
pub open spec fn manual_fallback_spec(manual_price_override: Option<u64>) -> Result<u64, ErrorCode> {
    match manual_price_override {
        Some(price) => if price == 0 || price > MAX_MANUAL_PRICE {
            Err(ErrorCode::InvalidPrice)
        } else {
            Ok(price)
        },
        None => Err(ErrorCode::PriceFeedUnavailable),
    }
}

/// The price a call works with: the oracle reading when strictly positive,
/// else the validated manual override.
pub open spec fn resolved_price_spec(
    oracle_price: Option<i64>,
    manual_price_override: Option<u64>,
) -> Result<u64, ErrorCode> {
    match oracle_price {
        Some(price) => if 0 < price {
            Ok(price as u64)
        } else {
            manual_fallback_spec(manual_price_override)
        },
        None => manual_fallback_spec(manual_price_override),
    }
}

/// Resolves the price for one call from a raw oracle reading (`None` when the
/// feed could not be read or had no current price) and the stored manual
/// override. A resolved price is always strictly positive.
pub fn get_price_from_oracle(
    oracle_price: Option<i64>,
    manual_price_override: Option<u64>,
) -> (r: Result<u64, ErrorCode>)
    ensures
        r == resolved_price_spec(oracle_price, manual_price_override),
        r matches Ok(price) ==> price > 0,
{
    match oracle_price {
        Some(price) => {
            if price > 0 {
                return Ok(price as u64);
            }
        },
        None => {},
    }
    match manual_price_override {
        Some(price) => {
            if price == 0 || price > MAX_MANUAL_PRICE {
                Err(ErrorCode::InvalidPrice)
            } else {
                Ok(price)
            }
        },
        None => Err(ErrorCode::PriceFeedUnavailable),
    }
}

/// The lamport value of `amount` tokens priced at `price` USD cents each, at
/// `sol_price_in_usd` cents per SOL, exactly as the checked 64-bit chain
/// computes it: each intermediate product must fit in 64 bits and the SOL
/// price must be nonzero, else the computation fails.
pub open spec fn sol_price_calc_spec(amount: u64, price: u64, sol_price_in_usd: u64) -> Result<
    u64,
    ErrorCode,
> {
    if amount * price > u64::MAX {
        Err(ErrorCode::MathOverflow)
    } else if amount * price * LAMPORTS_PER_SOL > u64::MAX {
        Err(ErrorCode::MathOverflow)
    } else if sol_price_in_usd == 0 {
        Err(ErrorCode::MathOverflow)
    } else {
        Ok((amount * price * LAMPORTS_PER_SOL / sol_price_in_usd as int) as u64)
    }
}

/// Converts a token amount into lamports at the given prices, per
/// `sol_price_calc_spec`.
pub fn calculate_sol_price(amount: u64, price: u64, sol_price_in_usd: u64) -> (r: Result<
    u64,
    ErrorCode,
>)
    ensures
        r == sol_price_calc_spec(amount, price, sol_price_in_usd),
{
    let value = match amount.checked_mul(price) {
        None => {
            return Err(ErrorCode::MathOverflow);
        },
        Some(v) => v,
    };
    let scaled = match value.checked_mul(LAMPORTS_PER_SOL) {
        None => {
            return Err(ErrorCode::MathOverflow);
        },
        Some(v) => v,
    };
    match scaled.checked_div(sol_price_in_usd) {
        None => Err(ErrorCode::MathOverflow),
        Some(v) => Ok(v),
    }
}

} // verus!
