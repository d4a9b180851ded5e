use presale_vesting::airdrop::{
    distribute_airdrops_batch, distribute_initial_airdrop, distribute_monthly_airdrop,
    UserDistribution, MAX_BATCH_SIZE,
};
use presale_vesting::sale::{initialize, ErrorCode, PresaleAccount, UserVesting};

const AUTHORITY: u64 = 9;

fn config() -> PresaleAccount {
    initialize(AUTHORITY, 100, 200, 300, 2, 1_000_000_000, 50, 1000, 100, vec![10, 9], 12).unwrap()
}

fn user(total: u64) -> UserVesting {
    UserVesting {
        total_amount: total,
        claimed_amount: 0,
        start_time: 0,
        airdrops_completed: 0,
        total_purchased_sol: 0,
    }
}

#[test]
fn initial_airdrop_pays_first_tranche() {
    let p = config();
    let mut u = user(1000);
    assert_eq!(
        distribute_initial_airdrop(&p, &mut u, 150),
        Err(ErrorCode::PresaleNotEnded)
    );
    assert_eq!(u.claimed_amount, 0);
    assert_eq!(distribute_initial_airdrop(&p, &mut u, 200), Ok(100));
    assert_eq!(u.claimed_amount, 100);
    assert_eq!(u.airdrops_completed, 1);
}

#[test]
fn monthly_airdrop_follows_intervals() {
    let p = config();
    let mut u = user(1000);
    u.airdrops_completed = 1;
    u.claimed_amount = 100;
    // One interval elapsed equals one tranche already paid: not due yet.
    assert_eq!(
        distribute_monthly_airdrop(&p, &mut u, 150),
        Err(ErrorCode::AirdropNotDue)
    );
    // Before the record's start nothing is due either.
    let mut early = user(1000);
    early.start_time = 1_000_000;
    assert_eq!(
        distribute_monthly_airdrop(&p, &mut early, 150),
        Err(ErrorCode::AirdropNotDue)
    );
    // Two intervals in, the second tranche (9%) is due.
    assert_eq!(distribute_monthly_airdrop(&p, &mut u, 250), Ok(90));
    assert_eq!(u.claimed_amount, 190);
    assert_eq!(u.airdrops_completed, 2);
    // Both tranches paid: the schedule is complete.
    assert_eq!(
        distribute_monthly_airdrop(&p, &mut u, 950),
        Err(ErrorCode::AirdropCompleted)
    );
}

#[test]
fn monthly_airdrop_checks_table_bounds() {
    let mut p = config();
    // A counter promising more periods than the table holds is caught.
    p.total_airdrop_periods = 5;
    let mut u = user(1000);
    u.airdrops_completed = 3;
    assert_eq!(
        distribute_monthly_airdrop(&p, &mut u, 900),
        Err(ErrorCode::AirdropConfigurationError)
    );
    assert_eq!(u.claimed_amount, 0);
}

#[test]
fn batch_serves_users_in_order() {
    let p = config();
    let mut vestings = vec![user(1000), user(2000)];
    let users = vec![
        UserDistribution { user_vesting_index: 0, airdrop_index: 0 },
        UserDistribution { user_vesting_index: 1, airdrop_index: 1 },
    ];
    let transfers = distribute_airdrops_batch(&p, &mut vestings, &users, 200).unwrap();
    assert_eq!(transfers, vec![(0, 100), (1, 180)]);
    assert_eq!(vestings[0].claimed_amount, 100);
    assert_eq!(vestings[0].airdrops_completed, 1);
    assert_eq!(vestings[1].claimed_amount, 180);
    assert_eq!(vestings[1].airdrops_completed, 1);
}

#[test]
fn batch_skips_finished_users() {
    let p = config();
    let mut finished = user(1000);
    finished.airdrops_completed = 2;
    let mut vestings = vec![finished, user(2000)];
    let users = vec![
        UserDistribution { user_vesting_index: 0, airdrop_index: 0 },
        UserDistribution { user_vesting_index: 1, airdrop_index: 0 },
    ];
    let transfers = distribute_airdrops_batch(&p, &mut vestings, &users, 200).unwrap();
    assert_eq!(transfers, vec![(1, 200)]);
    assert_eq!(vestings[0].claimed_amount, 0);
    assert_eq!(vestings[0].airdrops_completed, 2);
}

#[test]
fn batch_records_zero_transfers_without_crediting() {
    let p = config();
    // 5 tokens at 10% floor to zero: the transfer is recorded but nothing is
    // credited and the tranche counter stays put.
    let mut vestings = vec![user(5)];
    let users = vec![UserDistribution { user_vesting_index: 0, airdrop_index: 0 }];
    let transfers = distribute_airdrops_batch(&p, &mut vestings, &users, 200).unwrap();
    assert_eq!(transfers, vec![(0, 0)]);
    assert_eq!(vestings[0].claimed_amount, 0);
    assert_eq!(vestings[0].airdrops_completed, 0);
}

#[test]
fn batch_is_all_or_nothing() {
    let p = config();
    let mut vestings = vec![user(1000), user(2000)];
    let users = vec![
        UserDistribution { user_vesting_index: 0, airdrop_index: 0 },
        UserDistribution { user_vesting_index: 5, airdrop_index: 0 },
    ];
    // The second entry's index is out of range: the whole batch is rejected
    // and the first user keeps an untouched record.
    assert_eq!(
        distribute_airdrops_batch(&p, &mut vestings, &users, 200),
        Err(ErrorCode::InvalidUserAccountIndex)
    );
    assert_eq!(vestings[0].claimed_amount, 0);
    assert_eq!(vestings[0].airdrops_completed, 0);
    // A tranche index outside the table is rejected the same way.
    let users = vec![UserDistribution { user_vesting_index: 0, airdrop_index: 7 }];
    assert_eq!(
        distribute_airdrops_batch(&p, &mut vestings, &users, 200),
        Err(ErrorCode::AirdropConfigurationError)
    );
}

#[test]
fn batch_rejects_oversized_and_early_calls() {
    let p = config();
    let mut vestings = vec![user(1000)];
    let users = vec![UserDistribution { user_vesting_index: 0, airdrop_index: 0 }];
    assert_eq!(
        distribute_airdrops_batch(&p, &mut vestings, &users, 150),
        Err(ErrorCode::PresaleNotEnded)
    );
    let mut big = Vec::new();
    for _ in 0..(MAX_BATCH_SIZE + 1) {
        big.push(UserDistribution { user_vesting_index: 0, airdrop_index: 0 });
    }
    assert_eq!(
        distribute_airdrops_batch(&p, &mut vestings, &big, 200),
        Err(ErrorCode::BatchTooLarge)
    );
    assert_eq!(vestings[0].claimed_amount, 0);
}

#[test]
fn batch_serves_one_user_twice() {
    let p = config();
    let mut vestings = vec![user(1000)];
    let users = vec![
        UserDistribution { user_vesting_index: 0, airdrop_index: 0 },
        UserDistribution { user_vesting_index: 0, airdrop_index: 1 },
    ];
    let transfers = distribute_airdrops_batch(&p, &mut vestings, &users, 200).unwrap();
    assert_eq!(transfers, vec![(0, 100), (0, 90)]);
    assert_eq!(vestings[0].claimed_amount, 190);
    assert_eq!(vestings[0].airdrops_completed, 2);
}
