use vstd::prelude::*;
use vstd::arithmetic::div_mod::lemma_div_is_ordered;
use vstd::arithmetic::div_mod::lemma_div_pos_is_pos;
use vstd::arithmetic::mul::lemma_mul_inequality;
use vstd::arithmetic::mul::lemma_mul_nonnegative;
use vstd::arithmetic::mul::lemma_mul_upper_bound;
use crate::state::StreamRecord;

verus! {

/// The amount the schedule has released by `now`: zero before the start and
/// before the cliff; from the cliff on, the cliff tranche plus one
/// `amount_per_period` for every full period elapsed since the cliff,
/// clamped to the net deposit.
pub open spec fn spec_unlocked(r: StreamRecord, now: u64) -> int {
    if now < r.start_time || now < r.cliff {
        0
    } else {
        let raw = r.cliff_amount + ((now - r.cliff) / (r.period as int)) * r.amount_per_period;
        if raw > r.net_amount_deposited {
            r.net_amount_deposited as int
        } else {
            raw
        }
    }
}

/// The amount an operation at `now` may still pay out: what is unlocked
/// less what was already withdrawn, never negative.
pub open spec fn spec_available(r: StreamRecord, now: u64) -> int {
    if spec_unlocked(r, now) >= r.withdrawn_amount {
        spec_unlocked(r, now) - r.withdrawn_amount
    } else {
        0
    }
}

/// The unlocked amount always lies between zero and the net deposit.
pub proof fn lemma_unlocked_bounds(r: StreamRecord, now: u64)
    requires
        r.wf(),
    ensures
        0 <= spec_unlocked(r, now) <= r.net_amount_deposited,
{
    if now >= r.start_time && now >= r.cliff {
        let ticks = (now - r.cliff) / (r.period as int);
        lemma_div_pos_is_pos(now - r.cliff, r.period as int);
        lemma_mul_nonnegative(ticks, r.amount_per_period as int);
    }
}

/// Monotonicity: for a fixed record, the unlocked amount never decreases
/// as time advances.
pub proof fn lemma_unlocked_monotonic(r: StreamRecord, t1: u64, t2: u64)
    requires
        r.wf(),
        t1 <= t2,
    ensures
        spec_unlocked(r, t1) <= spec_unlocked(r, t2),
{
    lemma_unlocked_bounds(r, t1);
    lemma_unlocked_bounds(r, t2);
    if t1 >= r.start_time && t1 >= r.cliff {
        let ticks1 = (t1 - r.cliff) / (r.period as int);
        let ticks2 = (t2 - r.cliff) / (r.period as int);
        lemma_div_is_ordered(t1 - r.cliff, t2 - r.cliff, r.period as int);
        lemma_mul_inequality(ticks1, ticks2, r.amount_per_period as int);
    }
}

/// After paying out everything available at `now`, nothing is available at
/// that same instant: a second maximum withdrawal is a no-op.
pub proof fn lemma_nothing_left_after_full_payout(r: StreamRecord, now: u64)
    requires
        r.wf(),
    ensures
        ({
            let drained = StreamRecord {
                withdrawn_amount: (r.withdrawn_amount + spec_available(r, now)) as u64,
                ..r
            };
            spec_available(drained, now) == 0
        }),
{
    lemma_unlocked_bounds(r, now);
}

/// Exact evaluation of `spec_unlocked`. The tick count and the clamp are
/// computed in 128-bit arithmetic, which two 64-bit factors cannot
/// overflow.
pub fn unlocked(r: &StreamRecord, now: u64) -> (amount: u64)
    requires
        r.wf(),
    ensures
        amount == spec_unlocked(*r, now),
{
    if now < r.start_time || now < r.cliff {
        return 0;
    }
    let elapsed: u64 = now - r.cliff;
    let ticks: u64 = elapsed / r.period;
    proof {
        lemma_mul_nonnegative(ticks as int, r.amount_per_period as int);
        lemma_mul_upper_bound(ticks as int, u64::MAX as int, r.amount_per_period as int, u64::MAX as int);
    }
    let raw: u128 = r.cliff_amount as u128 + (ticks as u128) * (r.amount_per_period as u128);
    if raw > r.net_amount_deposited as u128 {
        r.net_amount_deposited
    } else {
        raw as u64
    }
}

/// Exact evaluation of `spec_available`.
pub fn withdrawable(r: &StreamRecord, now: u64) -> (amount: u64)
    requires
        r.wf(),
    ensures
        amount == spec_available(*r, now),
{
    let unlocked_now = unlocked(r, now);
    if unlocked_now >= r.withdrawn_amount {
        unlocked_now - r.withdrawn_amount
    } else {
        0
    }
}

} // verus!
