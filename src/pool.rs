//! The pure arithmetic of a subnet's TAO/Alpha pool: its bootstrap from a lock,
//! and the constant-product swap formula shared by simulated and real swaps.
use vstd::prelude::*;

verus! {

/// What a constant-product pool with reserves `in_reserve` and `out_reserve` pays out
/// for `amount` of the input asset: `out_reserve * amount / (in_reserve + amount)`,
/// truncated toward the pool. A pool with an empty reserve supports no trade.
pub open spec fn swap_output(in_reserve: u64, out_reserve: u64, amount: u64) -> Option<u64> {
    if in_reserve == 0 || out_reserve == 0 {
        None
    } else {
        Some(
            ((out_reserve as int * amount as int) / (in_reserve as int + amount as int)) as u64,
        )
    }
}

/// The TAO kept in a new pool from a lock of `lock`: at most `min_lock`.
pub open spec fn pool_share(lock: u64, min_lock: u64) -> u64 {
    if lock >= min_lock {
        min_lock
    } else {
        lock
    }
}

proof fn lemma_swap_output_bounded(in_reserve: u64, out_reserve: u64, amount: u64)
    requires
        in_reserve > 0,
        out_reserve > 0,
    ensures
        (out_reserve as int * amount as int) / (in_reserve as int + amount as int)
            <= out_reserve as int,
{
    let n = out_reserve as int * amount as int;
    let d = in_reserve as int + amount as int;
    assert(n <= out_reserve as int * d) by (nonlinear_arith)
        requires
            n == out_reserve as int * amount as int,
            d == in_reserve as int + amount as int,
            in_reserve > 0,
            out_reserve > 0,
    ;
    assert(n / d <= out_reserve as int) by (nonlinear_arith)
        requires
            n <= out_reserve as int * d,
            d > 0,
            n >= 0,
    ;
}

/// The constant-product swap output, or `None` where the pool cannot support the trade.
/// Never overflows: the product is formed in 128 bits and the quotient is at most
/// `out_reserve`.
pub fn constant_product_out(in_reserve: u64, out_reserve: u64, amount: u64) -> (r: Option<u64>)
    ensures
        r == swap_output(in_reserve, out_reserve, amount),
        r matches Some(x) ==> x <= out_reserve,
{
    if in_reserve == 0 || out_reserve == 0 {
        return None;
    }
    proof {
        lemma_swap_output_bounded(in_reserve, out_reserve, amount);
    }
    assert(out_reserve as int * amount as int <= u64::MAX as int * u64::MAX as int)
        by (nonlinear_arith);
    let num: u128 = (out_reserve as u128) * (amount as u128);
    let den: u128 = (in_reserve as u128) + (amount as u128);
    let q: u128 = num / den;
    Some(q as u64)
}

/// Splits a lock of `lock` TAO into the TAO that seeds a new pool and the TAO that is
/// burned: the pool keeps `min(lock, min_lock)` and the rest is burned.
pub fn bootstrap_pool(lock: u64, min_lock: u64) -> (r: (u64, u64))
    ensures
        r.0 == pool_share(lock, min_lock),
        r.1 == lock - pool_share(lock, min_lock),
        r.0 + r.1 == lock,
        lock >= min_lock ==> r.0 == min_lock && r.1 == lock - min_lock,
        lock < min_lock ==> r.0 == lock && r.1 == 0,
{
    if lock >= min_lock {
        (min_lock, lock - min_lock)
    } else {
        (lock, 0)
    }
}

/// Selling TAO for Alpha and at once selling the Alpha received back for TAO, both
/// against the same reserves, never returns more TAO than was put in.
pub proof fn lemma_round_trip_no_gain(tao_reserve: u64, alpha_reserve: u64, tao: u64)
    ensures
        swap_output(tao_reserve, alpha_reserve, tao) matches Some(alpha) ==>
            swap_output(alpha_reserve, tao_reserve, alpha) matches Some(back) && back <= tao,
{
    if tao_reserve > 0 && alpha_reserve > 0 {
        let t = tao_reserve as int;
        let a = alpha_reserve as int;
        let x = tao as int;
        lemma_swap_output_bounded(tao_reserve, alpha_reserve, tao);
        let y = (a * x) / (t + x);
        assert(y * (t + x) <= a * x) by (nonlinear_arith)
            requires
                y == (a * x) / (t + x),
                t + x > 0,
        ;
        assert(y >= 0) by (nonlinear_arith)
            requires
                y == (a * x) / (t + x),
                t + x > 0,
                a >= 0,
                x >= 0,
        ;
        assert(t * y <= x * (a + y)) by (nonlinear_arith)
            requires
                y * (t + x) <= a * x,
                y >= 0,
                x >= 0,
        ;
        assert((t * y) / (a + y) <= x) by (nonlinear_arith)
            requires
                t * y <= x * (a + y),
                a + y > 0,
                t * y >= 0,
        ;
    }
}

} // verus!
