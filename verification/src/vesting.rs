//! The cliff-plus-interval vesting formula shared by the presale ledgers: how
//! much of an entitlement has vested at a given time, floored to whole
//! intervals, never exceeding the entitlement, and monotone in time.

use vstd::prelude::*;

verus! {

use vstd::arithmetic::div_mod::{
    lemma_div_is_ordered,
    lemma_div_nonincreasing,
    lemma_div_pos_is_pos,
    lemma_multiply_divide_le,
};
use vstd::arithmetic::mul::{lemma_mul_inequality, lemma_mul_nonnegative, lemma_mul_upper_bound};
use vstd::math::min;

/// Amount vested at `current_time` out of `total_amount`, under a schedule
/// starting at `start_time` that releases in whole steps of `vesting_interval`
/// seconds across `vesting_period` seconds. Nothing is vested before the start
/// or under a degenerate schedule (non-positive period or interval, or a
/// period shorter than one interval); otherwise the vested amount is
/// `total_amount * intervals_vested / intervals_total`, floored, with
/// `intervals_vested` capped at `intervals_total` so the result saturates at
/// `total_amount` once the whole period has elapsed.
pub open spec fn vested_amount_spec(
    total_amount: u64,
    start_time: i64,
    vesting_period: i64,
    vesting_interval: i64,
    current_time: i64,
) -> int {
    if current_time < start_time || vesting_period <= 0 || vesting_interval <= 0 {
        0
    } else {
        let intervals_total = vesting_period as int / vesting_interval as int;
        if intervals_total == 0 {
            0
        } else {
            let intervals_vested = min(
                (current_time - start_time) / vesting_interval as int,
                intervals_total,
            );
            total_amount as int * intervals_vested / intervals_total
        }
    }
}

/// The vested amount always lies between zero and the full entitlement.
pub proof fn lemma_vested_amount_bounds(
    total_amount: u64,
    start_time: i64,
    vesting_period: i64,
    vesting_interval: i64,
    current_time: i64,
)
    ensures
        0 <= vested_amount_spec(
            total_amount,
            start_time,
            vesting_period,
            vesting_interval,
            current_time,
        ) <= total_amount,
{
    if !(current_time < start_time || vesting_period <= 0 || vesting_interval <= 0) {
        let iv = vesting_interval as int;
        let intervals_total = vesting_period as int / iv;
        if intervals_total != 0 {
            let elapsed = current_time - start_time;
            let intervals_vested = min(elapsed / iv, intervals_total);
            lemma_div_pos_is_pos(vesting_period as int, iv);
            lemma_div_pos_is_pos(elapsed, iv);
            lemma_mul_nonnegative(total_amount as int, intervals_vested);
            lemma_div_pos_is_pos(total_amount as int * intervals_vested, intervals_total);
            lemma_mul_inequality(intervals_vested, intervals_total, total_amount as int);
            lemma_multiply_divide_le(
                total_amount as int * intervals_vested,
                intervals_total,
                total_amount as int,
            );
        }
    }
}

/// For a fixed entitlement and schedule, the vested amount never decreases as
/// time advances.
pub proof fn lemma_vested_amount_monotone(
    total_amount: u64,
    start_time: i64,
    vesting_period: i64,
    vesting_interval: i64,
    time_earlier: i64,
    time_later: i64,
)
    requires
        time_earlier <= time_later,
    ensures
        vested_amount_spec(total_amount, start_time, vesting_period, vesting_interval, time_earlier)
            <= vested_amount_spec(
            total_amount,
            start_time,
            vesting_period,
            vesting_interval,
            time_later,
        ),
{
    lemma_vested_amount_bounds(
        total_amount,
        start_time,
        vesting_period,
        vesting_interval,
        time_earlier,
    );
    lemma_vested_amount_bounds(
        total_amount,
        start_time,
        vesting_period,
        vesting_interval,
        time_later,
    );
    if !(time_earlier < start_time || vesting_period <= 0 || vesting_interval <= 0) {
        let iv = vesting_interval as int;
        let intervals_total = vesting_period as int / iv;
        if intervals_total != 0 {
            let vested_earlier = min((time_earlier - start_time) / iv, intervals_total);
            let vested_later = min((time_later - start_time) / iv, intervals_total);
            lemma_div_is_ordered(time_earlier - start_time, time_later - start_time, iv);
            lemma_mul_inequality(vested_earlier, vested_later, total_amount as int);
            lemma_div_is_ordered(
                total_amount as int * vested_earlier,
                total_amount as int * vested_later,
                intervals_total,
            );
        }
    }
}

/// Computes the vested amount exactly as `vested_amount_spec` states it. The
/// widening to 128 bits keeps the product `total_amount * intervals_vested`
/// exact before the flooring division.
pub fn calculate_vested_amount(
    total_amount: u64,
    start_time: i64,
    vesting_period: i64,
    vesting_interval: i64,
    current_time: i64,
) -> (r: u64)
    ensures
        r == vested_amount_spec(
            total_amount,
            start_time,
            vesting_period,
            vesting_interval,
            current_time,
        ),
        r <= total_amount,
{
    proof {
        lemma_vested_amount_bounds(
            total_amount,
            start_time,
            vesting_period,
            vesting_interval,
            current_time,
        );
    }
    if current_time < start_time {
        return 0;
    }
    if vesting_period <= 0 || vesting_interval <= 0 {
        return 0;
    }
    let elapsed: u128 = (current_time as i128 - start_time as i128) as u128;
    let interval: u128 = vesting_interval as u128;
    let intervals_total: u128 = (vesting_period as u128) / interval;
    if intervals_total == 0 {
        return 0;
    }
    let quotient: u128 = elapsed / interval;
    let intervals_vested: u128 = if quotient > intervals_total {
        intervals_total
    } else {
        quotient
    };
    proof {
        lemma_div_nonincreasing(vesting_period as int, interval as int);
        lemma_mul_upper_bound(
            total_amount as int,
            u64::MAX as int,
            intervals_vested as int,
            i64::MAX as int,
        );
    }
    let vested: u128 = (total_amount as u128) * intervals_vested / intervals_total;
    proof {
        lemma_mul_nonnegative(total_amount as int, intervals_vested as int);
        assert(total_amount as int * intervals_vested as int <= intervals_total as int * (
        total_amount as int)) by {
            lemma_mul_inequality(
                intervals_vested as int,
                intervals_total as int,
                total_amount as int,
            );
        }
        lemma_multiply_divide_le(
            total_amount as int * intervals_vested as int,
            intervals_total as int,
            total_amount as int,
        );
    }
    vested as u64
}

} // verus!
