//! The price of registering the next subnet, and the registration rate limit.
use vstd::prelude::*;

verus! {

/// `a * b`, clamped to the `u64` range.
pub open spec fn sat_mul(a: u64, b: u64) -> u64 {
    if a as int * b as int > u64::MAX as int {
        u64::MAX
    } else {
        (a as int * b as int) as u64
    }
}

/// `a - b`, clamped at zero.
pub open spec fn sat_sub(a: u64, b: u64) -> u64 {
    if a >= b {
        (a - b) as u64
    } else {
        0
    }
}

/// The lock cost before clamping: twice the last lock (the last lock itself when no
/// lock was ever recorded), less `last_lock / interval` for each block elapsed since.
/// An interval of zero means no decay.
pub open spec fn unclamped_lock_cost(
    last_lock: u64,
    last_lock_block: u64,
    current_block: u64,
    interval: u64,
) -> u64 {
    let mult: u64 = if last_lock_block == 0 { 1 } else { 2 };
    let per_block: u64 = if interval == 0 { 0 } else { (last_lock / interval) as u64 };
    sat_sub(sat_mul(last_lock, mult), sat_mul(per_block, sat_sub(current_block, last_lock_block)))
}

/// The lock cost clamped to `[min_lock, max_lock]`; the floor wins where the bounds cross.
pub open spec fn lock_cost(
    last_lock: u64,
    last_lock_block: u64,
    current_block: u64,
    interval: u64,
    min_lock: u64,
    max_lock: u64,
) -> u64 {
    let c = unclamped_lock_cost(last_lock, last_lock_block, current_block, interval);
    if c < min_lock {
        min_lock
    } else if c > max_lock {
        max_lock
    } else {
        c
    }
}

/// Whether a registration at `current_block` is outside the rate-limit window that
/// opened at `last_lock_block`.
pub open spec fn rate_limit_passed(current_block: u64, last_lock_block: u64, limit: u64) -> bool {
    sat_sub(current_block, last_lock_block) >= limit
}

fn saturating_mul_u64(a: u64, b: u64) -> (r: u64)
    ensures
        r == sat_mul(a, b),
{
    assert(a as int * b as int <= u64::MAX as int * u64::MAX as int) by (nonlinear_arith);
    let p: u128 = (a as u128) * (b as u128);
    if p > u64::MAX as u128 {
        u64::MAX
    } else {
        p as u64
    }
}

/// Computes `lock_cost` without overflow.
pub fn compute_lock_cost(
    last_lock: u64,
    last_lock_block: u64,
    current_block: u64,
    interval: u64,
    min_lock: u64,
    max_lock: u64,
) -> (r: u64)
    ensures
        r == lock_cost(last_lock, last_lock_block, current_block, interval, min_lock, max_lock),
        min_lock <= max_lock ==> min_lock <= r <= max_lock,
{
    let mult: u64 = if last_lock_block == 0 { 1 } else { 2 };
    let per_block: u64 = if interval == 0 { 0 } else { last_lock / interval };
    let elapsed: u64 = current_block.saturating_sub(last_lock_block);
    let base: u64 = saturating_mul_u64(last_lock, mult);
    let decay: u64 = saturating_mul_u64(per_block, elapsed);
    let cost: u64 = base.saturating_sub(decay);
    if cost < min_lock {
        min_lock
    } else if cost > max_lock {
        max_lock
    } else {
        cost
    }
}

/// Whether the rate limit lets a registration through at `current_block`.
pub fn check_rate_limit(current_block: u64, last_lock_block: u64, limit: u64) -> (r: bool)
    ensures
        r == rate_limit_passed(current_block, last_lock_block, limit),
{
    current_block.saturating_sub(last_lock_block) >= limit
}

/// With the registration window opened at block `b` and a limit of `limit > 0` blocks,
/// a registration `limit - 1` blocks later is refused and one `limit` blocks later passes.
pub proof fn lemma_rate_limit_boundary(b: u64, limit: u64)
    requires
        limit > 0,
        b as int + limit as int <= u64::MAX as int,
    ensures
        !rate_limit_passed((b + limit - 1) as u64, b, limit),
        rate_limit_passed((b + limit) as u64, b, limit),
{
}

/// At the block of the last lock, a larger last lock never gives a lower price.
pub proof fn lemma_lock_cost_monotone_in_last_lock(
    l1: u64,
    l2: u64,
    last_lock_block: u64,
    current_block: u64,
    interval: u64,
    min_lock: u64,
    max_lock: u64,
)
    requires
        l1 <= l2,
        current_block == last_lock_block,
        min_lock <= max_lock,
    ensures
        lock_cost(l1, last_lock_block, current_block, interval, min_lock, max_lock) <= lock_cost(
            l2,
            last_lock_block,
            current_block,
            interval,
            min_lock,
            max_lock,
        ),
{
    let mult: u64 = if last_lock_block == 0 { 1 } else { 2 };
    assert(l1 as int * mult as int <= l2 as int * mult as int) by (nonlinear_arith)
        requires
            l1 <= l2,
            mult >= 1,
    ;
    assert(sat_sub(current_block, last_lock_block) == 0);
    assert(forall|x: u64| #[trigger] sat_mul(x, 0) == 0);
    assert(sat_mul(l1, mult) <= sat_mul(l2, mult));
}

/// The price never rises as blocks pass without a registration, and once the whole
/// last lock has decayed it rests at the floor.
pub proof fn lemma_lock_cost_decays(
    last_lock: u64,
    last_lock_block: u64,
    b1: u64,
    b2: u64,
    interval: u64,
    min_lock: u64,
    max_lock: u64,
)
    requires
        b1 <= b2,
        min_lock <= max_lock,
    ensures
        lock_cost(last_lock, last_lock_block, b2, interval, min_lock, max_lock) <= lock_cost(
            last_lock,
            last_lock_block,
            b1,
            interval,
            min_lock,
            max_lock,
        ),
{
    let per_block: u64 = if interval == 0 { 0 } else { (last_lock / interval) as u64 };
    let e1 = sat_sub(b1, last_lock_block);
    let e2 = sat_sub(b2, last_lock_block);
    assert(e1 <= e2);
    assert(per_block as int * e1 as int <= per_block as int * e2 as int) by (nonlinear_arith)
        requires
            e1 <= e2,
    ;
}

} // verus!
