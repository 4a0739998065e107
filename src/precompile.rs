//! The read-only facade that an external contract bridge calls: every query passes
//! through to the registry or the pool, turns fixed-point values into integers by
//! truncation with clamping, and answers zero where there is no result.
use vstd::prelude::*;

use crate::fixed::{ratio_bits, saturating_int_part};
use crate::market::{spot_price_bits, subnet_of, subnet_swap};
use crate::registry::{netuid_in_use, sat_add, Pallet, ROOT_NETUID};

verus! {

/// The minimum pool liquidity reported to the bridge.
pub const MINIMUM_POOL_LIQUIDITY: u64 = 10_000_000;

/// The bridge's view of the registry and its pools.
pub struct AlphaPrecompile;

impl AlphaPrecompile {
    /// The integer part of the subnet's spot price.
    pub fn get_alpha_price(state: &Pallet, netuid: u16) -> (r: u64)
        requires
            state.wf(),
        ensures
            r == saturating_int_part(spot_price_bits(*state, netuid) as u128),
    {
        state.get_alpha_price(netuid).saturating_to_u64()
    }

    /// The integer part of the subnet's moving price.
    pub fn get_moving_alpha_price(state: &Pallet, netuid: u16) -> (r: u64)
        requires
            state.wf(),
        ensures
            netuid_in_use(state.subnets@, netuid) ==> r == saturating_int_part(
                subnet_of(*state, netuid).moving_price.bits,
            ),
            !netuid_in_use(state.subnets@, netuid) ==> r == 0,
    {
        state.get_moving_alpha_price(netuid).saturating_to_u64()
    }

    pub fn get_tao_in_pool(state: &Pallet, netuid: u16) -> (r: u64)
        requires
            state.wf(),
        ensures
            netuid_in_use(state.subnets@, netuid) ==> r == subnet_of(*state, netuid).tao_reserve,
            !netuid_in_use(state.subnets@, netuid) ==> r == 0,
    {
        state.get_tao_in_pool(netuid)
    }

    pub fn get_alpha_in_pool(state: &Pallet, netuid: u16) -> (r: u64)
        requires
            state.wf(),
        ensures
            netuid_in_use(state.subnets@, netuid) ==> r == subnet_of(*state, netuid).alpha_in_reserve,
            !netuid_in_use(state.subnets@, netuid) ==> r == 0,
    {
        state.get_alpha_in_pool(netuid)
    }

    pub fn get_alpha_out_pool(state: &Pallet, netuid: u16) -> (r: u64)
        requires
            state.wf(),
        ensures
            netuid_in_use(state.subnets@, netuid) ==> r == subnet_of(*state, netuid).alpha_out_issued,
            !netuid_in_use(state.subnets@, netuid) ==> r == 0,
    {
        state.get_alpha_out_pool(netuid)
    }

    pub fn get_alpha_issuance(state: &Pallet, netuid: u16) -> (r: u64)
        requires
            state.wf(),
        ensures
            netuid_in_use(state.subnets@, netuid) ==> r == sat_add(
                subnet_of(*state, netuid).alpha_in_reserve,
                subnet_of(*state, netuid).alpha_out_issued,
            ),
            !netuid_in_use(state.subnets@, netuid) ==> r == 0,
    {
        state.get_alpha_issuance(netuid)
    }

    /// The integer part of the global TAO weight.
    pub fn get_tao_weight(state: &Pallet) -> (r: u64)
        ensures
            r == saturating_int_part(ratio_bits(state.tao_weight, u64::MAX) as u128),
    {
        state.get_tao_weight().saturating_to_u64()
    }

    /// The simulated Alpha for `tao`, or zero where the simulation gives none.
    pub fn sim_swap_tao_for_alpha(state: &Pallet, netuid: u16, tao: u64) -> (r: u64)
        requires
            state.wf(),
        ensures
            r == match subnet_swap(*state, netuid, true, tao) {
                Some(a) => a,
                None => 0,
            },
    {
        match state.sim_swap_tao_for_alpha(netuid, tao) {
            Some(alpha) => alpha,
            None => 0,
        }
    }

    /// The simulated TAO for `alpha`, or zero where the simulation gives none.
    pub fn sim_swap_alpha_for_tao(state: &Pallet, netuid: u16, alpha: u64) -> (r: u64)
        requires
            state.wf(),
        ensures
            r == match subnet_swap(*state, netuid, false, alpha) {
                Some(t) => t,
                None => 0,
            },
    {
        match state.sim_swap_alpha_for_tao(netuid, alpha) {
            Some(tao) => tao,
            None => 0,
        }
    }

    pub fn get_subnet_mechanism(state: &Pallet, netuid: u16) -> (r: u16)
        requires
            state.wf(),
        ensures
            netuid_in_use(state.subnets@, netuid) ==> r == subnet_of(*state, netuid).mechanism,
            !netuid_in_use(state.subnets@, netuid) ==> r == 0,
    {
        let r = state.get_subnet_mechanism(netuid);
        proof {
            if netuid_in_use(state.subnets@, netuid) {
                let i = crate::registry::subnet_index(state.subnets@, netuid);
                assert(state.subnets@[i].netuid == netuid);
            }
        }
        r
    }

    pub fn get_minimum_pool_liquidity() -> (r: u64)
        ensures
            r == MINIMUM_POOL_LIQUIDITY,
    {
        MINIMUM_POOL_LIQUIDITY
    }

    pub fn get_root_netuid() -> (r: u16)
        ensures
            r == ROOT_NETUID,
    {
        Pallet::get_root_netuid()
    }

    pub fn get_ema_price_halving_blocks(state: &Pallet, netuid: u16) -> (r: u64)
        requires
            state.wf(),
        ensures
            netuid_in_use(state.subnets@, netuid) ==> r == subnet_of(*state, netuid).ema_halving_blocks,
            !netuid_in_use(state.subnets@, netuid) ==> r == 0,
    {
        state.get_ema_price_halving_blocks(netuid)
    }

    pub fn get_subnet_volume(state: &Pallet, netuid: u16) -> (r: u128)
        requires
            state.wf(),
        ensures
            netuid_in_use(state.subnets@, netuid) ==> r == subnet_of(*state, netuid).volume,
            !netuid_in_use(state.subnets@, netuid) ==> r == 0,
    {
        state.get_subnet_volume(netuid)
    }
}

} // verus!
