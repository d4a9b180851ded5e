//! Airdrop distribution for the timed presale: a one-off initial tranche once
//! the sale has ended, per-user monthly tranches driven by the percentage
//! table, and a bounded batch form that walks a caller-supplied list of
//! `(vesting record, tranche index)` pairs with every lookup bounds-checked.
//!
//! The batch settles all-or-nothing: any invalid entry rejects the whole batch
//! and leaves every record as it was. The host performs the returned
//! transfers.

use vstd::prelude::*;

verus! {

use crate::sale::{ErrorCode, PresaleAccount, UserVesting};

/// Largest number of entries one batch call accepts.
pub const MAX_BATCH_SIZE: usize = 50;

/// One batch entry: which vesting record to serve and which tranche of the
/// percentage table to pay it.
#[derive(Clone, Copy, Debug, PartialEq, Eq, Structural)]
pub struct UserDistribution {
    pub user_vesting_index: usize,
    pub airdrop_index: u8,
}

/// Pays the first tranche of the percentage table once the sale has ended:
/// that share of the entitlement, floored, is credited as claimed and the
/// airdrop counter restarts at one. Returns the tokens the host must transfer.
pub fn distribute_initial_airdrop(
    p: &PresaleAccount,
    u: &mut UserVesting,
    now: i64,
) -> (r: Result<u64, ErrorCode>)
    ensures
        r.is_err() ==> *final(u) == *old(u),
        if now < p.presale_end {
            r == Err::<u64, ErrorCode>(ErrorCode::PresaleNotEnded)
        } else if p.airdrop_percentages@.len() == 0 {
            r == Err::<u64, ErrorCode>(ErrorCode::AirdropConfigurationError)
        } else if old(u).total_amount * p.airdrop_percentages@[0] > u64::MAX {
            r == Err::<u64, ErrorCode>(ErrorCode::MathOverflow)
        } else if old(u).claimed_amount + old(u).total_amount * p.airdrop_percentages@[0] / 100
            > u64::MAX {
            r == Err::<u64, ErrorCode>(ErrorCode::MathOverflow)
        } else {
            r == Ok::<u64, ErrorCode>((old(u).total_amount * p.airdrop_percentages@[0] / 100) as u64)
            && *final(u) == (UserVesting {
                claimed_amount: (old(u).claimed_amount + old(u).total_amount
                    * p.airdrop_percentages@[0] / 100) as u64,
                airdrops_completed: 1,
                ..*old(u)
            })
        },
{
    if now < p.presale_end {
        return Err(ErrorCode::PresaleNotEnded);
    }
    if p.airdrop_percentages.len() == 0 {
        return Err(ErrorCode::AirdropConfigurationError);
    }
    let initial_percentage = p.airdrop_percentages[0];
    let scaled = match u.total_amount.checked_mul(initial_percentage) {
        None => {
            return Err(ErrorCode::MathOverflow);
        },
        Some(v) => v,
    };
    let initial_airdrop = scaled / 100;
    let new_claimed = match u.claimed_amount.checked_add(initial_airdrop) {
        None => {
            return Err(ErrorCode::MathOverflow);
        },
        Some(v) => v,
    };
    u.claimed_amount = new_claimed;
    u.airdrops_completed = 1;
    Ok(initial_airdrop)
}

/// Pays the next monthly tranche when at least one more whole vesting interval
/// has elapsed since the record's start than tranches already paid. A schedule
/// with no positive interval never has a tranche due. Returns the tokens the
/// host must transfer.
pub fn distribute_monthly_airdrop(
    p: &PresaleAccount,
    u: &mut UserVesting,
    now: i64,
) -> (r: Result<u64, ErrorCode>)
    ensures
        r.is_err() ==> *final(u) == *old(u),
        if now < old(u).start_time || p.vesting_interval <= 0 {
            r == Err::<u64, ErrorCode>(ErrorCode::AirdropNotDue)
        } else if (now - old(u).start_time) / p.vesting_interval as int
            <= old(u).airdrops_completed {
            r == Err::<u64, ErrorCode>(ErrorCode::AirdropNotDue)
        } else if old(u).airdrops_completed >= p.total_airdrop_periods {
            r == Err::<u64, ErrorCode>(ErrorCode::AirdropCompleted)
        } else if old(u).airdrops_completed >= p.airdrop_percentages@.len() {
            r == Err::<u64, ErrorCode>(ErrorCode::AirdropConfigurationError)
        } else {
            let pct = p.airdrop_percentages@[old(u).airdrops_completed as int];
            if old(u).total_amount * pct > u64::MAX {
                r == Err::<u64, ErrorCode>(ErrorCode::MathOverflow)
            } else if old(u).claimed_amount + old(u).total_amount * pct / 100 > u64::MAX {
                r == Err::<u64, ErrorCode>(ErrorCode::MathOverflow)
            } else {
                r == Ok::<u64, ErrorCode>((old(u).total_amount * pct / 100) as u64)
                && *final(u) == (UserVesting {
                    claimed_amount: (old(u).claimed_amount + old(u).total_amount * pct
                        / 100) as u64,
                    airdrops_completed: (old(u).airdrops_completed + 1) as u8,
                    ..*old(u)
                })
            }
        },
{
    if now < u.start_time || p.vesting_interval <= 0 {
        return Err(ErrorCode::AirdropNotDue);
    }
    let months_elapsed: i128 = (now as i128 - u.start_time as i128) / (p.vesting_interval as i128);
    if months_elapsed <= u.airdrops_completed as i128 {
        return Err(ErrorCode::AirdropNotDue);
    }
    if u.airdrops_completed >= p.total_airdrop_periods {
        return Err(ErrorCode::AirdropCompleted);
    }
    if u.airdrops_completed as usize >= p.airdrop_percentages.len() {
        return Err(ErrorCode::AirdropConfigurationError);
    }
    let current_percentage = p.airdrop_percentages[u.airdrops_completed as usize];
    let scaled = match u.total_amount.checked_mul(current_percentage) {
        None => {
            return Err(ErrorCode::MathOverflow);
        },
        Some(v) => v,
    };
    let airdrop_amount = scaled / 100;
    let new_claimed = match u.claimed_amount.checked_add(airdrop_amount) {
        None => {
            return Err(ErrorCode::MathOverflow);
        },
        Some(v) => v,
    };
    u.claimed_amount = new_claimed;
    u.airdrops_completed = u.airdrops_completed + 1;
    Ok(airdrop_amount)
}

/// What serving one batch entry does to the vesting records: a record that has
/// finished its airdrops is skipped; a record that is due gets its tranche's
/// share credited and its counter advanced, and the transfer `(index, amount)`
/// is recorded — a zero tranche is transferred but not credited, as a plain
/// zero transfer. Bad indices and overflowing arithmetic reject the entry.
pub open spec fn batch_step_spec(
    p: PresaleAccount,
    vs: Seq<UserVesting>,
    d: UserDistribution,
) -> Result<(Seq<UserVesting>, Option<(usize, u64)>), ErrorCode> {
    if d.user_vesting_index >= vs.len() {
        Err(ErrorCode::InvalidUserAccountIndex)
    } else {
        let v = vs[d.user_vesting_index as int];
        if v.airdrops_completed >= p.total_airdrop_periods {
            Ok((vs, None))
        } else if d.airdrop_index >= p.airdrop_percentages@.len() {
            Err(ErrorCode::AirdropConfigurationError)
        } else {
            let pct = p.airdrop_percentages@[d.airdrop_index as int];
            if v.total_amount * pct > u64::MAX {
                Err(ErrorCode::MathOverflow)
            } else {
                let amount = v.total_amount * pct / 100;
                if amount == 0 {
                    Ok((vs, Some((d.user_vesting_index, 0u64))))
                } else if v.claimed_amount + amount > u64::MAX {
                    Err(ErrorCode::MathOverflow)
                } else {
                    let served = UserVesting {
                        claimed_amount: (v.claimed_amount + amount) as u64,
                        airdrops_completed: (v.airdrops_completed + 1) as u8,
                        ..v
                    };
                    Ok(
                        (
                            vs.update(d.user_vesting_index as int, served),
                            Some((d.user_vesting_index, amount as u64)),
                        ),
                    )
                }
            }
        }
    }
}

/// What serving the batch entries from position `i` on does: the final vesting
/// records and the transfers in order, or the first entry's error.
pub open spec fn batch_spec(
    p: PresaleAccount,
    vs: Seq<UserVesting>,
    users: Seq<UserDistribution>,
    i: int,
) -> Result<(Seq<UserVesting>, Seq<(usize, u64)>), ErrorCode>
    decreases users.len() - i,
{
    if i < 0 || i >= users.len() {
        Ok((vs, Seq::empty()))
    } else {
        match batch_step_spec(p, vs, users[i]) {
            Err(e) => Err(e),
            Ok((served, transfer)) => match batch_spec(p, served, users, i + 1) {
                Err(e) => Err(e),
                Ok((final_vs, transfers)) => Ok(
                    (
                        final_vs,
                        (match transfer {
                            Some(t) => seq![t],
                            None => Seq::empty(),
                        }) + transfers,
                    ),
                ),
            },
        }
    }
}

/// Serves a batch of airdrop entries once the sale has ended, all-or-nothing:
/// the whole batch is rejected — and no record changes — on the first entry
/// whose index is out of range or whose arithmetic would overflow. Returns the
/// `(record index, amount)` transfers the host must perform, in order.
#[verifier::loop_isolation(false)]
pub fn distribute_airdrops_batch(
    p: &PresaleAccount,
    vestings: &mut Vec<UserVesting>,
    users: &Vec<UserDistribution>,
    now: i64,
) -> (r: Result<Vec<(usize, u64)>, ErrorCode>)
    ensures
        r.is_err() ==> final(vestings)@ == old(vestings)@,
        if now < p.presale_end {
            r == Err::<Vec<(usize, u64)>, ErrorCode>(ErrorCode::PresaleNotEnded)
        } else if users@.len() > MAX_BATCH_SIZE {
            r == Err::<Vec<(usize, u64)>, ErrorCode>(ErrorCode::BatchTooLarge)
        } else {
            match batch_spec(*p, old(vestings)@, users@, 0) {
                Ok(outcome) => r matches Ok(transfers) && final(vestings)@ == outcome.0
                    && transfers@ == outcome.1,
                Err(e) => r == Err::<Vec<(usize, u64)>, ErrorCode>(e),
            }
        },
{
    if now < p.presale_end {
        return Err(ErrorCode::PresaleNotEnded);
    }
    if users.len() > MAX_BATCH_SIZE {
        return Err(ErrorCode::BatchTooLarge);
    }
    let mut work: Vec<UserVesting> = Vec::new();
    let mut k: usize = 0;
    while k < vestings.len()
        invariant
            0 <= k <= vestings@.len(),
            work@ == vestings@.take(k as int),
        decreases vestings@.len() - k,
    {
        work.push(vestings[k]);
        proof {
            assert(work@ =~= vestings@.take(k + 1));
        }
        k = k + 1;
    }
    proof {
        assert(vestings@.take(vestings@.len() as int) =~= vestings@);
    }
    let mut transfers: Vec<(usize, u64)> = Vec::new();
    let mut i: usize = 0;
    while i < users.len()
        invariant
            0 <= i <= users@.len(),
            match batch_spec(*p, work@, users@, i as int) {
                Ok(tail) => batch_spec(*p, old(vestings)@, users@, 0) matches Ok(whole)
                    && whole.0 == tail.0 && whole.1 == transfers@ + tail.1,
                Err(e) => batch_spec(*p, old(vestings)@, users@, 0) == Err::<
                    (Seq<UserVesting>, Seq<(usize, u64)>),
                    ErrorCode,
                >(e),
            },
        decreases users@.len() - i,
    {
        let d = users[i];
        if d.user_vesting_index >= work.len() {
            return Err(ErrorCode::InvalidUserAccountIndex);
        }
        let v = work[d.user_vesting_index];
        if v.airdrops_completed >= p.total_airdrop_periods {
            i = i + 1;
            continue ;
        }
        if d.airdrop_index as usize >= p.airdrop_percentages.len() {
            return Err(ErrorCode::AirdropConfigurationError);
        }
        let pct = p.airdrop_percentages[d.airdrop_index as usize];
        let scaled = match v.total_amount.checked_mul(pct) {
            None => {
                return Err(ErrorCode::MathOverflow);
            },
            Some(s) => s,
        };
        let amount = scaled / 100;
        let ghost transfers_before = transfers@;
        if amount == 0 {
            transfers.push((d.user_vesting_index, 0u64));
            proof {
                lemma_transfer_reorder(
                    transfers_before,
                    (d.user_vesting_index, 0u64),
                    batch_tail_transfers(*p, work@, users@, i + 1),
                );
            }
            i = i + 1;
            continue ;
        }
        let new_claimed = match v.claimed_amount.checked_add(amount) {
            None => {
                return Err(ErrorCode::MathOverflow);
            },
            Some(c) => c,
        };
        let served = UserVesting {
            claimed_amount: new_claimed,
            airdrops_completed: v.airdrops_completed + 1,
            ..v
        };
        work[d.user_vesting_index] = served;
        transfers.push((d.user_vesting_index, amount));
        proof {
            lemma_transfer_reorder(
                transfers_before,
                (d.user_vesting_index, amount),
                batch_tail_transfers(*p, work@, users@, i + 1),
            );
        }
        i = i + 1;
    }
    proof {
        assert(transfers@ + Seq::<(usize, u64)>::empty() =~= transfers@);
    }
    let mut out: Vec<UserVesting> = work;
    core::mem::swap(vestings, &mut out);
    Ok(transfers)
}

/// The transfers of the batch tail from position `i`, when it succeeds.
pub open spec fn batch_tail_transfers(
    p: PresaleAccount,
    vs: Seq<UserVesting>,
    users: Seq<UserDistribution>,
    i: int,
) -> Seq<(usize, u64)> {
    match batch_spec(p, vs, users, i) {
        Ok(outcome) => outcome.1,
        Err(_) => Seq::empty(),
    }
}

/// Appending one transfer and then a tail is the same as prepending the
/// transfer to the tail: the bookkeeping step behind the batch loop.
proof fn lemma_transfer_reorder(done: Seq<(usize, u64)>, t: (usize, u64), tail: Seq<(usize, u64)>)
    ensures
        done.push(t) + tail =~= done + (seq![t] + tail),
{
}

} // verus!
