use presale_vesting::oracle::{calculate_sol_price, get_price_from_oracle};
use presale_vesting::sale::{
    calculate_claimable, claim, initialize, purchase, refund, set_pause_state,
    update_manual_price_override, update_presale_discount, update_presale_params, ErrorCode,
    PresaleAccount, UserVesting,
};

const AUTHORITY: u64 = 9;

fn valid_config() -> PresaleAccount {
    initialize(
        AUTHORITY,
        100,
        200,
        300,
        2,
        1_000_000_000,
        50,
        1000,
        100,
        vec![10, 9, 9],
        12,
    )
    .unwrap()
}

fn fresh_user() -> UserVesting {
    UserVesting {
        total_amount: 0,
        claimed_amount: 0,
        start_time: 0,
        airdrops_completed: 0,
        total_purchased_sol: 0,
    }
}

#[test]
fn initialize_accepts_valid_config() {
    let cfg = valid_config();
    assert_eq!(cfg.presale_start, 100);
    assert_eq!(cfg.presale_end, 200);
    assert_eq!(cfg.public_sale_start, 300);
    assert_eq!(cfg.price, 2);
    assert_eq!(cfg.total_airdrop_periods, 3);
    assert_eq!(cfg.airdrop_percentages, vec![10, 9, 9]);
    assert_eq!(cfg.total_sold_sol, 0);
    assert_eq!(cfg.manual_price_override, None);
    assert!(!cfg.paused);
}

#[test]
fn initialize_rejects_bad_configs() {
    let build = |start: i64,
                 end: i64,
                 public: i64,
                 cliff: i64,
                 period: i64,
                 interval: i64,
                 pcts: Vec<u64>,
                 max_elems: u8| {
        initialize(AUTHORITY, start, end, public, 2, 1_000_000_000, cliff, period, interval, pcts, max_elems)
    };
    // Too many tranche entries.
    assert_eq!(
        build(100, 200, 300, 50, 1000, 100, vec![10, 9, 9], 2).unwrap_err(),
        ErrorCode::AirdropConfigurationError
    );
    // Percentages beyond 100 in total.
    assert_eq!(
        build(100, 200, 300, 50, 1000, 100, vec![60, 50], 12).unwrap_err(),
        ErrorCode::AirdropConfigurationError
    );
    // Degenerate vesting parameters.
    assert_eq!(
        build(100, 200, 300, 50, 0, 100, vec![10], 12).unwrap_err(),
        ErrorCode::InvalidVestingParameters
    );
    assert_eq!(
        build(100, 200, 300, 50, 1000, 0, vec![10], 12).unwrap_err(),
        ErrorCode::InvalidVestingParameters
    );
    assert_eq!(
        build(100, 200, 300, 50, 1000, 2000, vec![10], 12).unwrap_err(),
        ErrorCode::InvalidVestingParameters
    );
    assert_eq!(
        build(100, 200, 300, 2000, 1000, 100, vec![10], 12).unwrap_err(),
        ErrorCode::InvalidVestingParameters
    );
    // Broken timing: an empty window, or a public sale inside it.
    assert_eq!(
        build(200, 200, 300, 50, 1000, 100, vec![10], 12).unwrap_err(),
        ErrorCode::InvalidPresaleTiming
    );
    assert_eq!(
        build(100, 200, 150, 50, 1000, 100, vec![10], 12).unwrap_err(),
        ErrorCode::InvalidPresaleTiming
    );
    // Empty or zero tranche entries.
    assert_eq!(
        build(100, 200, 300, 50, 1000, 100, vec![], 12).unwrap_err(),
        ErrorCode::AirdropConfigurationError
    );
    assert_eq!(
        build(100, 200, 300, 50, 1000, 100, vec![10, 0, 9], 12).unwrap_err(),
        ErrorCode::AirdropConfigurationError
    );
}

#[test]
fn purchase_happy_path() {
    let mut p = valid_config();
    assert_eq!(
        update_presale_params(&mut p, AUTHORITY, None, Some(0), Some(1_000_000_000), Some(1_000_000_000)),
        Ok(())
    );
    let mut u = fresh_user();
    // Price 2 cents, SOL at 100 cents: one token costs 20_000_000 lamports.
    let r = purchase(&mut p, &mut u, 3, 150, Some(100), 100_000_000);
    assert_eq!(r, Ok(60_000_000));
    assert_eq!(p.total_sold_sol, 60_000_000);
    assert_eq!(u.total_amount, 3);
    assert_eq!(u.total_purchased_sol, 60_000_000);
}

#[test]
fn purchase_respects_window_and_pause() {
    let mut p = valid_config();
    update_presale_params(&mut p, AUTHORITY, None, Some(0), Some(1_000_000_000), Some(1_000_000_000)).unwrap();
    let mut u = fresh_user();
    assert_eq!(
        purchase(&mut p, &mut u, 1, 99, Some(100), 100_000_000),
        Err(ErrorCode::SaleNotActive)
    );
    assert_eq!(
        purchase(&mut p, &mut u, 1, 201, Some(100), 100_000_000),
        Err(ErrorCode::SaleNotActive)
    );
    assert_eq!(set_pause_state(&mut p, AUTHORITY, true), Ok(()));
    assert_eq!(
        purchase(&mut p, &mut u, 1, 150, Some(100), 100_000_000),
        Err(ErrorCode::PresalePaused)
    );
    assert_eq!(u.total_amount, 0);
    assert_eq!(p.total_sold_sol, 0);
}

#[test]
fn purchase_enforces_limits() {
    let mut p = valid_config();
    update_presale_params(&mut p, AUTHORITY, None, Some(0), Some(50_000_000), Some(100_000_000)).unwrap();
    let mut u = fresh_user();
    // 3 tokens cost 60_000_000: more than the buyer holds.
    assert_eq!(
        purchase(&mut p, &mut u, 3, 150, Some(100), 59_999_999),
        Err(ErrorCode::InsufficientFunds)
    );
    // More than the per-user maximum of 50_000_000.
    assert_eq!(
        purchase(&mut p, &mut u, 3, 150, Some(100), 100_000_000),
        Err(ErrorCode::ExceedsMaximumPurchase)
    );
    // Within the user maximum; two such purchases pass the hard cap.
    update_presale_params(&mut p, AUTHORITY, None, None, Some(1_000_000_000), None).unwrap();
    assert_eq!(purchase(&mut p, &mut u, 3, 150, Some(100), 100_000_000), Ok(60_000_000));
    assert_eq!(
        purchase(&mut p, &mut u, 3, 150, Some(100), 100_000_000),
        Err(ErrorCode::HardCapReached)
    );
    assert_eq!(p.total_sold_sol, 60_000_000);
    // A minimum buy amount rejects a cost below it.
    update_presale_params(&mut p, AUTHORITY, None, Some(30_000_000), None, Some(1_000_000_000)).unwrap();
    assert_eq!(
        purchase(&mut p, &mut u, 1, 150, Some(100), 100_000_000),
        Err(ErrorCode::BelowMinimumPurchase)
    );
}

#[test]
fn purchase_overflow_is_an_error() {
    let mut p = valid_config();
    update_presale_params(&mut p, AUTHORITY, Some(u64::MAX), Some(0), Some(u64::MAX), Some(u64::MAX)).unwrap();
    let mut u = fresh_user();
    assert_eq!(
        purchase(&mut p, &mut u, 1, 150, Some(100), u64::MAX),
        Err(ErrorCode::MathOverflow)
    );
    assert_eq!(p.total_sold_sol, 0);
    assert_eq!(u.total_amount, 0);
}

#[test]
fn purchase_uses_manual_override_when_oracle_fails() {
    let mut p = valid_config();
    update_presale_params(&mut p, AUTHORITY, None, Some(0), Some(1_000_000_000), Some(1_000_000_000)).unwrap();
    let mut u = fresh_user();
    // No oracle and no override: the price is unavailable.
    assert_eq!(
        purchase(&mut p, &mut u, 1, 150, None, 100_000_000),
        Err(ErrorCode::PriceFeedUnavailable)
    );
    // A non-positive oracle reading is not trusted either.
    assert_eq!(
        purchase(&mut p, &mut u, 1, 150, Some(0), 100_000_000),
        Err(ErrorCode::PriceFeedUnavailable)
    );
    assert_eq!(update_manual_price_override(&mut p, AUTHORITY, Some(100)), Ok(()));
    assert_eq!(purchase(&mut p, &mut u, 1, 150, None, 100_000_000), Ok(20_000_000));
}

#[test]
fn claim_pays_once_per_instant() {
    let p = valid_config();
    let mut u = UserVesting {
        total_amount: 1000,
        claimed_amount: 0,
        start_time: 0,
        airdrops_completed: 0,
        total_purchased_sol: 0,
    };
    // Halfway through the 1000-second schedule, half has vested.
    assert_eq!(calculate_claimable(&p, &u, 500), 500);
    assert_eq!(claim(&p, &mut u, 500), Ok(500));
    assert_eq!(u.claimed_amount, 500);
    // A second claim at the same instant finds nothing, and changes nothing.
    assert_eq!(claim(&p, &mut u, 500), Err(ErrorCode::NoTokensToClaim));
    assert_eq!(u.claimed_amount, 500);
    assert_eq!(calculate_claimable(&p, &u, 500), 0);
    // Later, only the newly vested part is paid.
    assert_eq!(claim(&p, &mut u, 700), Ok(200));
    assert_eq!(u.claimed_amount, 700);
}

#[test]
fn claim_before_start_finds_nothing() {
    let p = valid_config();
    let mut u = UserVesting {
        total_amount: 1000,
        claimed_amount: 0,
        start_time: 10_000,
        airdrops_completed: 0,
        total_purchased_sol: 0,
    };
    assert_eq!(claim(&p, &mut u, 500), Err(ErrorCode::NoTokensToClaim));
    assert_eq!(u.claimed_amount, 0);
}

#[test]
fn refund_timing_and_balance() {
    let mut p = valid_config();
    p.total_sold_sol = 10_000_000_000;
    // Vesting has not started for this user, so everything is refundable.
    let mut u = UserVesting {
        total_amount: 1000,
        claimed_amount: 0,
        start_time: 100_000,
        airdrops_completed: 0,
        total_purchased_sol: 0,
    };
    // Before the sale ends no refund is available.
    assert_eq!(
        refund(&mut p, &mut u, 400, 150, Some(100), u64::MAX),
        Err(ErrorCode::RefundNotAvailable)
    );
    // A zero request, or one beyond the refundable balance, is rejected.
    assert_eq!(
        refund(&mut p, &mut u, 0, 300, Some(100), u64::MAX),
        Err(ErrorCode::InsufficientRefundBalance)
    );
    assert_eq!(
        refund(&mut p, &mut u, 1001, 300, Some(100), u64::MAX),
        Err(ErrorCode::InsufficientRefundBalance)
    );
    // The program must hold the refund.
    assert_eq!(
        refund(&mut p, &mut u, 400, 300, Some(100), 100),
        Err(ErrorCode::InsufficientProgramBalance)
    );
    assert_eq!(u.total_amount, 1000);
    // 400 tokens at 2 cents, SOL at 100 cents: 8_000_000_000 lamports back,
    // and the SOL counter shrinks by exactly that value.
    assert_eq!(
        refund(&mut p, &mut u, 400, 300, Some(100), u64::MAX),
        Ok(8_000_000_000)
    );
    assert_eq!(u.total_amount, 600);
    assert_eq!(p.total_sold_sol, 2_000_000_000);
}

#[test]
fn refund_needs_a_covering_sol_counter() {
    // A counter smaller than the refund's SOL value is refused rather than
    // driven below zero.
    let mut p = valid_config();
    p.total_sold_sol = 1000;
    let mut u = UserVesting {
        total_amount: 1000,
        claimed_amount: 0,
        start_time: 100_000,
        airdrops_completed: 0,
        total_purchased_sol: 0,
    };
    assert_eq!(
        refund(&mut p, &mut u, 400, 300, Some(100), u64::MAX),
        Err(ErrorCode::MathOverflow)
    );
    assert_eq!(u.total_amount, 1000);
    assert_eq!(p.total_sold_sol, 1000);
}

#[test]
fn refund_excludes_vested_tokens() {
    let mut p = valid_config();
    p.total_sold_sol = 20_000_000_000;
    // Half the schedule has passed at time 700: 500 of 1000 are claimable and
    // cannot be refunded.
    let mut u = UserVesting {
        total_amount: 1000,
        claimed_amount: 0,
        start_time: 200,
        airdrops_completed: 0,
        total_purchased_sol: 0,
    };
    assert_eq!(
        refund(&mut p, &mut u, 501, 700, Some(100), u64::MAX),
        Err(ErrorCode::InsufficientRefundBalance)
    );
    assert_eq!(refund(&mut p, &mut u, 500, 700, Some(100), u64::MAX), Ok(10_000_000_000));
    assert_eq!(u.total_amount, 500);
    assert_eq!(p.total_sold_sol, 10_000_000_000);
}

#[test]
fn admin_updates_are_gated() {
    let mut p = valid_config();
    assert_eq!(
        update_presale_params(&mut p, 1, Some(5), None, None, None),
        Err(ErrorCode::UnauthorizedAccess)
    );
    assert_eq!(p.price, 2);
    assert_eq!(set_pause_state(&mut p, 1, true), Err(ErrorCode::UnauthorizedAccess));
    assert!(!p.paused);
    assert_eq!(
        update_manual_price_override(&mut p, 1, Some(10)),
        Err(ErrorCode::UnauthorizedAccess)
    );
    assert_eq!(
        update_presale_discount(&mut p, 1, Some(10)),
        Err(ErrorCode::UnauthorizedAccess)
    );
    // The override must be positive and within range.
    assert_eq!(
        update_manual_price_override(&mut p, AUTHORITY, Some(0)),
        Err(ErrorCode::InvalidPrice)
    );
    assert_eq!(
        update_manual_price_override(&mut p, AUTHORITY, Some(1_000_001)),
        Err(ErrorCode::InvalidPrice)
    );
    assert_eq!(update_manual_price_override(&mut p, AUTHORITY, Some(1_000_000)), Ok(()));
    assert_eq!(p.manual_price_override, Some(1_000_000));
    assert_eq!(update_manual_price_override(&mut p, AUTHORITY, None), Ok(()));
    assert_eq!(p.manual_price_override, None);
    // The discount path rejects a zero price and keeps the old one.
    assert_eq!(
        update_presale_discount(&mut p, AUTHORITY, Some(0)),
        Err(ErrorCode::InvalidPrice)
    );
    assert_eq!(p.price, 2);
    assert_eq!(update_presale_discount(&mut p, AUTHORITY, Some(7)), Ok(()));
    assert_eq!(p.price, 7);
    assert_eq!(update_presale_discount(&mut p, AUTHORITY, None), Ok(()));
    assert_eq!(p.price, 7);
    // A partial params update only touches what it names.
    assert_eq!(
        update_presale_params(&mut p, AUTHORITY, None, Some(11), None, Some(44)),
        Ok(())
    );
    assert_eq!(p.price, 7);
    assert_eq!(p.min_buy_amount_sol, 11);
    assert_eq!(p.max_buy_amount_sol, 0);
    assert_eq!(p.hard_cap_sol, 44);
}

#[test]
fn oracle_resolution_rules() {
    assert_eq!(get_price_from_oracle(Some(50), None), Ok(50));
    assert_eq!(get_price_from_oracle(Some(50), Some(70)), Ok(50));
    assert_eq!(get_price_from_oracle(Some(0), Some(10)), Ok(10));
    assert_eq!(get_price_from_oracle(Some(-3), Some(10)), Ok(10));
    assert_eq!(get_price_from_oracle(Some(-3), Some(0)), Err(ErrorCode::InvalidPrice));
    assert_eq!(
        get_price_from_oracle(None, Some(2_000_000)),
        Err(ErrorCode::InvalidPrice)
    );
    assert_eq!(get_price_from_oracle(None, None), Err(ErrorCode::PriceFeedUnavailable));
}

#[test]
fn sol_price_conversion() {
    // 10 tokens at 3 cents, SOL at 4 cents: 7_500_000_000 lamports.
    assert_eq!(calculate_sol_price(10, 3, 4), Ok(7_500_000_000));
    assert_eq!(calculate_sol_price(10, 3, 0), Err(ErrorCode::MathOverflow));
    assert_eq!(calculate_sol_price(u64::MAX, 2, 1), Err(ErrorCode::MathOverflow));
    // The first product fits, the lamport scaling does not.
    assert_eq!(
        calculate_sol_price(5_000_000_000, 4, 1),
        Err(ErrorCode::MathOverflow)
    );
}

#[test]
fn purchase_with_zero_price_is_bad_math() {
    let mut p = valid_config();
    update_presale_params(&mut p, AUTHORITY, Some(0), Some(0), Some(u64::MAX), Some(u64::MAX))
        .unwrap();
    let mut u = fresh_user();
    // A zero price makes every cost zero and the minimum-purchase guard's
    // division impossible.
    assert_eq!(
        purchase(&mut p, &mut u, 3, 150, Some(100), 100_000_000),
        Err(ErrorCode::BadMath)
    );
    assert_eq!(u.total_amount, 0);
}
