//! Facts about sequences of registrations and emission starts.
use vstd::prelude::*;

use crate::fixed::{ratio_bits, FRAC_SCALE, lemma_ratio_of_equal_is_one};
use crate::identity::{identity_valid, SubnetIdentity};
use crate::lock::lemma_rate_limit_boundary;
use crate::registry::{
    hotkey_exists, netuid_in_use, owns_hotkey, registration_effect, registration_error,
    start_call_effect, start_call_error, subnet_index, sat_add, AccountId, Error, Pallet,
    DYNAMIC_MECHANISM,
};

verus! {

/// Two registrations in a row, with no removal between them, allocate strictly
/// increasing netuids; each is at least one and unused before its registration.
pub proof fn lemma_netuids_increase(
    p: Pallet,
    q: Pallet,
    r: Pallet,
    ck1: AccountId,
    hk1: AccountId,
    m1: u16,
    id1: Option<SubnetIdentity>,
    ck2: AccountId,
    hk2: AccountId,
    m2: u16,
    id2: Option<SubnetIdentity>,
)
    requires
        registration_effect(p, q, ck1, hk1, m1, id1),
        registration_effect(q, r, ck2, hk2, m2, id2),
    ensures
        q.subnets@.last().netuid >= 1,
        !netuid_in_use(p.subnets@, q.subnets@.last().netuid),
        !netuid_in_use(q.subnets@, r.subnets@.last().netuid),
        r.subnets@.last().netuid > q.subnets@.last().netuid,
{
    let n1 = q.subnets@.last().netuid;
    let n2 = r.subnets@.last().netuid;
    let last = q.subnets@.len() - 1;
    assert(q.subnets@[last].netuid == n1);
    assert(netuid_in_use(q.subnets@, n1));
    if n2 < n1 {
        assert(netuid_in_use(p.subnets@, n2));
        let i = choose|i: int| 0 <= i < p.subnets@.len() && (#[trigger] p.subnets@[i]).netuid == n2;
        assert(q.subnets@.drop_last()[i] == q.subnets@[i]);
        assert(q.subnets@[i].netuid == n2);
    }
}

/// After a registration at block `b` under a limit of `limit > 0` blocks, a registration
/// that passes the key and mechanism checks is refused for the rate limit at block
/// `b + limit - 1` and is not refused for it at block `b + limit`.
pub proof fn lemma_rate_limit_window(
    p: Pallet,
    q: Pallet,
    ck: AccountId,
    hk: AccountId,
    m: u16,
    id: Option<SubnetIdentity>,
    early: Pallet,
    late: Pallet,
    ck2: AccountId,
    hk2: AccountId,
    id2: Option<SubnetIdentity>,
)
    requires
        registration_effect(p, q, ck, hk, m, id),
        q.network_rate_limit > 0,
        p.block_number as int + q.network_rate_limit as int <= u64::MAX as int,
        early.network_last_registered == q.network_last_registered,
        early.network_rate_limit == q.network_rate_limit,
        early.block_number == p.block_number + q.network_rate_limit - 1,
        early.hotkey_owners@ == q.hotkey_owners@,
        late.network_last_registered == q.network_last_registered,
        late.network_rate_limit == q.network_rate_limit,
        late.block_number == p.block_number + q.network_rate_limit,
        !hotkey_exists(q.hotkey_owners@, hk2) || owns_hotkey(q.hotkey_owners@, ck2, hk2),
    ensures
        registration_error(early, ck2, hk2, DYNAMIC_MECHANISM, id2) == Some(Error::RateLimitExceeded),
        registration_error(late, ck2, hk2, DYNAMIC_MECHANISM, id2) != Some(Error::RateLimitExceeded),
{
    lemma_rate_limit_boundary(p.block_number, q.network_rate_limit);
}

/// A registration seeds the pool with `min(lock, min_lock)` TAO and exactly as much
/// Alpha, burns the rest of the lock, and the pool's price is then exactly one where
/// it holds any TAO.
pub proof fn lemma_bootstrap_conservation(
    p: Pallet,
    q: Pallet,
    ck: AccountId,
    hk: AccountId,
    m: u16,
    id: Option<SubnetIdentity>,
)
    requires
        registration_effect(p, q, ck, hk, m, id),
    ensures
        ({
            let cost = p.current_lock_cost();
            let min = p.network_min_lock;
            let rec = q.subnets@.last();
            &&& cost >= min ==> rec.tao_reserve == min
            &&& cost < min ==> rec.tao_reserve == cost
            &&& rec.tao_reserve == rec.alpha_in_reserve
            &&& rec.tao_reserve > 0 ==> ratio_bits(rec.tao_reserve, rec.alpha_in_reserve)
                == FRAC_SCALE
        }),
{
    let rec = q.subnets@.last();
    if rec.tao_reserve > 0 {
        lemma_ratio_of_equal_is_one(rec.tao_reserve);
    }
}

/// A registration that would pass every check but carries an invalid identity is
/// refused with `InvalidIdentity` (and a refused registration changes nothing).
pub proof fn lemma_invalid_identity_refused(
    p: Pallet,
    ck: AccountId,
    hk: AccountId,
    m: u16,
    ident: SubnetIdentity,
)
    requires
        !identity_valid(ident),
        registration_error(p, ck, hk, m, None) is None,
    ensures
        registration_error(p, ck, hk, m, Some(ident)) == Some(Error::InvalidIdentity),
{
}

/// Once emission of a subnet has been started, it starts at the block after the one
/// of the call, and starting it again is refused with `EmissionAlreadySet`.
pub proof fn lemma_start_call_once(p: Pallet, q: Pallet, caller: AccountId, netuid: u16)
    requires
        p.wf(),
        start_call_error(p, caller, netuid) is None,
        start_call_effect(p, q, netuid),
    ensures
        q.subnets@[subnet_index(q.subnets@, netuid)].first_emission_block == Some(
            sat_add(p.block_number, 1),
        ),
        start_call_error(q, caller, netuid) == Some(Error::EmissionAlreadySet),
{
    let i = subnet_index(p.subnets@, netuid);
    assert(q.subnets@[i].netuid == netuid);
    assert(forall|k: int| 0 <= k < q.subnets@.len() ==> #[trigger] q.subnets@[k].netuid == p.subnets@[k].netuid);
    assert(q.wf());
    q.lemma_subnet_index(i);
}

} // verus!
