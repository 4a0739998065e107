//! Pool queries of a subnet: prices, reserves, issuance, and swaps, simulated and real,
//! which share one formula.
use vstd::prelude::*;

use crate::lock::sat_sub;
use crate::fixed::{ratio_bits, Fixed, FRAC_SCALE, MAX_PRICE_BITS};
use crate::pool::{constant_product_out, lemma_round_trip_no_gain, swap_output};
use crate::registry::{
    netuid_in_use, same_but_subnets, sat_add, subnet_index, Pallet, SubnetInfo,
    DYNAMIC_MECHANISM, ROOT_NETUID,
};

verus! {

/// The subnet record with the netuid.
pub open spec fn subnet_of(p: Pallet, netuid: u16) -> SubnetInfo {
    p.subnets@[subnet_index(p.subnets@, netuid)]
}

/// The raw spot price of a subnet's Alpha in TAO: one on the root subnet, zero for an
/// unknown subnet or an empty Alpha reserve, and `tao / alpha_in` otherwise.
pub open spec fn spot_price_bits(p: Pallet, netuid: u16) -> int {
    if netuid == ROOT_NETUID {
        FRAC_SCALE as int
    } else if !netuid_in_use(p.subnets@, netuid) {
        0
    } else if subnet_of(p, netuid).alpha_in_reserve == 0 {
        0
    } else {
        ratio_bits(subnet_of(p, netuid).tao_reserve, subnet_of(p, netuid).alpha_in_reserve)
    }
}

/// What selling `amount` to a subnet's pool pays out, TAO for Alpha where `tao_side`
/// and Alpha for TAO otherwise: the constant-product output on the current reserves.
/// `None` for an unknown subnet, a subnet of another mechanism than the dynamic one, a
/// pool with an empty reserve, or where applying the trade would overflow a reserve,
/// the issued Alpha or the volume. Simulated and real swaps both follow this.
pub open spec fn subnet_swap(p: Pallet, netuid: u16, tao_side: bool, amount: u64) -> Option<u64> {
    if !netuid_in_use(p.subnets@, netuid) {
        None
    } else {
        let s = subnet_of(p, netuid);
        if s.mechanism != DYNAMIC_MECHANISM {
            None
        } else if tao_side {
            match swap_output(s.tao_reserve, s.alpha_in_reserve, amount) {
                Some(out) => if s.tao_reserve as int + amount as int > u64::MAX as int
                    || s.alpha_out_issued as int + out as int > u64::MAX as int || s.volume as int
                    + amount as int > u128::MAX as int {
                    None
                } else {
                    Some(out)
                },
                None => None,
            }
        } else {
            match swap_output(s.alpha_in_reserve, s.tao_reserve, amount) {
                Some(out) => if s.alpha_in_reserve as int + amount as int > u64::MAX as int
                    || s.volume as int + out as int > u128::MAX as int {
                    None
                } else {
                    Some(out)
                },
                None => None,
            }
        }
    }
}

/// A pool record after a trade of `amount` that paid out `out`. Selling TAO adds it to
/// the TAO reserve and moves the Alpha paid out of the pool; selling Alpha adds it to
/// the Alpha reserve, takes it back from the issued Alpha (down to zero), and pays the
/// TAO out of the TAO reserve. The volume counts the TAO traded.
pub open spec fn swap_applied(s: SubnetInfo, tao_side: bool, amount: u64, out: u64) -> SubnetInfo {
    if tao_side {
        SubnetInfo {
            tao_reserve: (s.tao_reserve + amount) as u64,
            alpha_in_reserve: (s.alpha_in_reserve - out) as u64,
            alpha_out_issued: (s.alpha_out_issued + out) as u64,
            volume: (s.volume + amount) as u128,
            ..s
        }
    } else {
        SubnetInfo {
            alpha_in_reserve: (s.alpha_in_reserve + amount) as u64,
            tao_reserve: (s.tao_reserve - out) as u64,
            alpha_out_issued: sat_sub(s.alpha_out_issued, amount),
            volume: (s.volume + out) as u128,
            ..s
        }
    }
}

/// The weight of the price after `elapsed` blocks with half-life `halving`, out of
/// `FRAC_SCALE`: `elapsed / (elapsed + halving)`, and all of it when both are zero.
pub open spec fn ema_weight(elapsed: u64, halving: u64) -> int {
    if elapsed as int + halving as int == 0 {
        FRAC_SCALE as int
    } else {
        (elapsed as int * FRAC_SCALE as int) / (elapsed as int + halving as int)
    }
}

/// The moving price `moving` moved toward `price` by the share `w` (out of `FRAC_SCALE`)
/// of the gap between them.
pub open spec fn ema_step(moving: int, price: int, w: int) -> int {
    if price >= moving {
        moving + ((price - moving) * w) / FRAC_SCALE as int
    } else {
        moving - ((moving - price) * w) / FRAC_SCALE as int
    }
}

impl Pallet {
    /// The position of the subnet with the netuid.
    fn lookup(&self, netuid: u16) -> (r: Option<usize>)
        requires
            self.wf(),
        ensures
            match r {
                Some(i) => netuid_in_use(self.subnets@, netuid) && i as int == subnet_index(
                    self.subnets@,
                    netuid,
                ) && i < self.subnets@.len() && self.subnets@[i as int].netuid == netuid,
                None => !netuid_in_use(self.subnets@, netuid),
            },
    {
        let r = self.find_subnet(netuid);
        match r {
            Some(i) => {
                proof {
                    self.lemma_subnet_index(i as int);
                }
            },
            None => {},
        }
        r
    }

    /// The spot price of the subnet's Alpha in TAO.
    pub fn get_alpha_price(&self, netuid: u16) -> (r: Fixed)
        requires
            self.wf(),
        ensures
            r.bits == spot_price_bits(*self, netuid),
    {
        if netuid == ROOT_NETUID {
            return Fixed::one();
        }
        match self.lookup(netuid) {
            Some(i) => {
                let alpha = self.subnets[i].alpha_in_reserve;
                if alpha == 0 {
                    Fixed::zero()
                } else {
                    Fixed::from_ratio(self.subnets[i].tao_reserve, alpha)
                }
            },
            None => Fixed::zero(),
        }
    }

    /// The subnet's moving price; zero for an unknown subnet.
    pub fn get_moving_alpha_price(&self, netuid: u16) -> (r: Fixed)
        requires
            self.wf(),
        ensures
            netuid_in_use(self.subnets@, netuid) ==> r == subnet_of(*self, netuid).moving_price,
            !netuid_in_use(self.subnets@, netuid) ==> r.bits == 0,
    {
        match self.lookup(netuid) {
            Some(i) => self.subnets[i].moving_price,
            None => Fixed::zero(),
        }
    }

    /// The TAO reserve of the subnet's pool; zero for an unknown subnet.
    pub fn get_tao_in_pool(&self, netuid: u16) -> (r: u64)
        requires
            self.wf(),
        ensures
            netuid_in_use(self.subnets@, netuid) ==> r == subnet_of(*self, netuid).tao_reserve,
            !netuid_in_use(self.subnets@, netuid) ==> r == 0,
    {
        match self.lookup(netuid) {
            Some(i) => self.subnets[i].tao_reserve,
            None => 0,
        }
    }

    /// The Alpha reserve of the subnet's pool; zero for an unknown subnet.
    pub fn get_alpha_in_pool(&self, netuid: u16) -> (r: u64)
        requires
            self.wf(),
        ensures
            netuid_in_use(self.subnets@, netuid) ==> r == subnet_of(*self, netuid).alpha_in_reserve,
            !netuid_in_use(self.subnets@, netuid) ==> r == 0,
    {
        match self.lookup(netuid) {
            Some(i) => self.subnets[i].alpha_in_reserve,
            None => 0,
        }
    }

    /// The Alpha that has left the subnet's pool; zero for an unknown subnet.
    pub fn get_alpha_out_pool(&self, netuid: u16) -> (r: u64)
        requires
            self.wf(),
        ensures
            netuid_in_use(self.subnets@, netuid) ==> r == subnet_of(*self, netuid).alpha_out_issued,
            !netuid_in_use(self.subnets@, netuid) ==> r == 0,
    {
        match self.lookup(netuid) {
            Some(i) => self.subnets[i].alpha_out_issued,
            None => 0,
        }
    }

    /// All Alpha of the subnet, in the pool and out of it, clamped to `u64::MAX`.
    pub fn get_alpha_issuance(&self, netuid: u16) -> (r: u64)
        requires
            self.wf(),
        ensures
            netuid_in_use(self.subnets@, netuid) ==> r == sat_add(
                subnet_of(*self, netuid).alpha_in_reserve,
                subnet_of(*self, netuid).alpha_out_issued,
            ),
            !netuid_in_use(self.subnets@, netuid) ==> r == 0,
    {
        match self.lookup(netuid) {
            Some(i) => self.subnets[i].alpha_in_reserve.saturating_add(
                self.subnets[i].alpha_out_issued,
            ),
            None => 0,
        }
    }

    /// The global TAO weight as a fraction: `tao_weight / u64::MAX`.
    pub fn get_tao_weight(&self) -> (r: Fixed)
        ensures
            r.bits == ratio_bits(self.tao_weight, u64::MAX),
    {
        Fixed::from_ratio(self.tao_weight, u64::MAX)
    }

    /// The half-life of the subnet's moving price, in blocks; zero for an unknown subnet.
    pub fn get_ema_price_halving_blocks(&self, netuid: u16) -> (r: u64)
        requires
            self.wf(),
        ensures
            netuid_in_use(self.subnets@, netuid) ==> r == subnet_of(*self, netuid).ema_halving_blocks,
            !netuid_in_use(self.subnets@, netuid) ==> r == 0,
    {
        match self.lookup(netuid) {
            Some(i) => self.subnets[i].ema_halving_blocks,
            None => 0,
        }
    }

    /// The TAO volume traded through the subnet's pool; zero for an unknown subnet.
    pub fn get_subnet_volume(&self, netuid: u16) -> (r: u128)
        requires
            self.wf(),
        ensures
            netuid_in_use(self.subnets@, netuid) ==> r == subnet_of(*self, netuid).volume,
            !netuid_in_use(self.subnets@, netuid) ==> r == 0,
    {
        match self.lookup(netuid) {
            Some(i) => self.subnets[i].volume,
            None => 0,
        }
    }

    /// The payout of a trade against the pool at position `i`, by `subnet_swap`.
    fn swap_quote(&self, i: usize, tao_side: bool, amount: u64) -> (r: Option<u64>)
        requires
            self.wf(),
            i < self.subnets@.len(),
        ensures
            r == subnet_swap(*self, self.subnets@[i as int].netuid, tao_side, amount),
            r matches Some(out) ==> out <= (if tao_side {
                self.subnets@[i as int].alpha_in_reserve
            } else {
                self.subnets@[i as int].tao_reserve
            }),
    {
        proof {
            self.lemma_subnet_index(i as int);
        }
        let s = &self.subnets[i];
        if s.mechanism != DYNAMIC_MECHANISM {
            return None;
        }
        if tao_side {
            let out = match constant_product_out(s.tao_reserve, s.alpha_in_reserve, amount) {
                Some(o) => o,
                None => {
                    return None;
                },
            };
            if s.tao_reserve > u64::MAX - amount || s.alpha_out_issued > u64::MAX - out || s.volume
                > u128::MAX - amount as u128 {
                None
            } else {
                Some(out)
            }
        } else {
            let out = match constant_product_out(s.alpha_in_reserve, s.tao_reserve, amount) {
                Some(o) => o,
                None => {
                    return None;
                },
            };
            if s.alpha_in_reserve > u64::MAX - amount || s.volume > u128::MAX - out as u128 {
                None
            } else {
                Some(out)
            }
        }
    }

    /// The Alpha that selling `tao` to the subnet's pool would give now; changes nothing.
    pub fn sim_swap_tao_for_alpha(&self, netuid: u16, tao: u64) -> (r: Option<u64>)
        requires
            self.wf(),
        ensures
            r == subnet_swap(*self, netuid, true, tao),
    {
        match self.lookup(netuid) {
            Some(i) => self.swap_quote(i, true, tao),
            None => None,
        }
    }

    /// The TAO that selling `alpha` to the subnet's pool would give now; changes nothing.
    pub fn sim_swap_alpha_for_tao(&self, netuid: u16, alpha: u64) -> (r: Option<u64>)
        requires
            self.wf(),
        ensures
            r == subnet_swap(*self, netuid, false, alpha),
    {
        match self.lookup(netuid) {
            Some(i) => self.swap_quote(i, false, alpha),
            None => None,
        }
    }
}


/// `q` is `p` with only the record at `i` changed.
pub open spec fn only_record_changed(p: Pallet, q: Pallet, i: int) -> bool {
    &&& same_but_subnets(p, q)
    &&& q.subnets@.len() == p.subnets@.len()
    &&& forall|j: int| 0 <= j < p.subnets@.len() && j != i ==> #[trigger] q.subnets@[j] == p.subnets@[j]
    &&& q.subnets@[i].netuid == p.subnets@[i].netuid
}

proof fn lemma_step_between(moving: int, price: int, w: int)
    requires
        0 <= w <= FRAC_SCALE as int,
    ensures
        price >= moving ==> moving <= ema_step(moving, price, w) <= price,
        price < moving ==> price <= ema_step(moving, price, w) <= moving,
        w == FRAC_SCALE as int ==> ema_step(moving, price, w) == price,
{
    let d = if price >= moving { price - moving } else { moving - price };
    assert(0 <= (d * w) / FRAC_SCALE as int <= d) by (nonlinear_arith)
        requires
            d >= 0,
            0 <= w <= FRAC_SCALE as int,
    ;
    if w == FRAC_SCALE as int {
        assert((d * w) / FRAC_SCALE as int == d) by (nonlinear_arith)
            requires
                w == FRAC_SCALE as int,
        ;
    }
}

impl Pallet {
    /// Applies a trade against the pool at position `i`, paying out what `swap_quote`
    /// gives; nothing changes where it gives nothing.
    fn execute_swap(&mut self, i: usize, tao_side: bool, amount: u64) -> (r: Option<u64>)
        requires
            old(self).wf(),
            i < old(self).subnets@.len(),
        ensures
            final(self).wf(),
            r == subnet_swap(*old(self), old(self).subnets@[i as int].netuid, tao_side, amount),
            r matches Some(out) ==> only_record_changed(*old(self), *final(self), i as int)
                && final(self).subnets@[i as int] == swap_applied(
                old(self).subnets@[i as int],
                tao_side,
                amount,
                out,
            ),
            r is None ==> *final(self) == *old(self),
    {
        let out = match self.swap_quote(i, tao_side, amount) {
            Some(o) => o,
            None => {
                return None;
            },
        };
        let ghost p0 = *self;
        if tao_side {
            let t = self.subnets[i].tao_reserve;
            let a = self.subnets[i].alpha_in_reserve;
            let o = self.subnets[i].alpha_out_issued;
            let v = self.subnets[i].volume;
            self.subnets[i].tao_reserve = t + amount;
            self.subnets[i].alpha_in_reserve = a - out;
            self.subnets[i].alpha_out_issued = o + out;
            self.subnets[i].volume = v + amount as u128;
        } else {
            let t = self.subnets[i].tao_reserve;
            let a = self.subnets[i].alpha_in_reserve;
            let o = self.subnets[i].alpha_out_issued;
            let v = self.subnets[i].volume;
            self.subnets[i].alpha_in_reserve = a + amount;
            self.subnets[i].tao_reserve = t - out;
            self.subnets[i].alpha_out_issued = o.saturating_sub(amount);
            self.subnets[i].volume = v + out as u128;
        }
        proof {
            assert(self.subnets@[i as int] == swap_applied(p0.subnets@[i as int], tao_side, amount, out));
            assert(forall|k: int| 0 <= k < self.subnets@.len() ==> #[trigger] self.subnets@[k].netuid == p0.subnets@[k].netuid);
        }
        Some(out)
    }

    /// Sells `tao` to the subnet's pool and returns the Alpha paid out: exactly what
    /// `sim_swap_tao_for_alpha` gives on the same state. The pool record changes as
    /// `swap_applied` says and nothing else does; where the simulation gives `None`,
    /// nothing changes.
    pub fn swap_tao_for_alpha(&mut self, netuid: u16, tao: u64) -> (r: Option<u64>)
        requires
            old(self).wf(),
        ensures
            final(self).wf(),
            r == subnet_swap(*old(self), netuid, true, tao),
            r matches Some(a) ==> ({
                let i = subnet_index(old(self).subnets@, netuid);
                &&& only_record_changed(*old(self), *final(self), i)
                &&& final(self).subnets@[i] == swap_applied(old(self).subnets@[i], true, tao, a)
            }),
            r is None ==> *final(self) == *old(self),
    {
        match self.lookup(netuid) {
            Some(i) => self.execute_swap(i, true, tao),
            None => None,
        }
    }

    /// Sells `alpha` to the subnet's pool and returns the TAO paid out: exactly what
    /// `sim_swap_alpha_for_tao` gives on the same state. The pool record changes as
    /// `swap_applied` says and nothing else does; where the simulation gives `None`,
    /// nothing changes.
    pub fn swap_alpha_for_tao(&mut self, netuid: u16, alpha: u64) -> (r: Option<u64>)
        requires
            old(self).wf(),
        ensures
            final(self).wf(),
            r == subnet_swap(*old(self), netuid, false, alpha),
            r matches Some(t) ==> ({
                let i = subnet_index(old(self).subnets@, netuid);
                &&& only_record_changed(*old(self), *final(self), i)
                &&& final(self).subnets@[i] == swap_applied(old(self).subnets@[i], false, alpha, t)
            }),
            r is None ==> *final(self) == *old(self),
    {
        match self.lookup(netuid) {
            Some(i) => self.execute_swap(i, false, alpha),
            None => None,
        }
    }

    /// Moves the subnet's moving price toward its spot price, by the share
    /// `elapsed / (elapsed + halving)` of the gap, where `elapsed` counts the blocks since
    /// the last update and `halving` is the subnet's half-life, and records the current
    /// block as the time of this update. An unknown subnet is left alone.
    pub fn update_moving_price(&mut self, netuid: u16)
        requires
            old(self).wf(),
        ensures
            final(self).wf(),
            !netuid_in_use(old(self).subnets@, netuid) ==> *final(self) == *old(self),
            netuid_in_use(old(self).subnets@, netuid) ==> ({
                let i = subnet_index(old(self).subnets@, netuid);
                let s = old(self).subnets@[i];
                let m = s.moving_price.bits as int;
                let price = spot_price_bits(*old(self), netuid);
                let w = ema_weight(
                    sat_sub(old(self).block_number, s.moving_price_updated_at),
                    s.ema_halving_blocks,
                );
                &&& only_record_changed(*old(self), *final(self), i)
                &&& final(self).subnets@[i] == SubnetInfo {
                    moving_price: Fixed { bits: ema_step(m, price, w) as u128 },
                    moving_price_updated_at: old(self).block_number,
                    ..s
                }
                &&& price >= m ==> m <= ema_step(m, price, w) <= price
                &&& price < m ==> price <= ema_step(m, price, w) <= m
            }),
    {
        let i = match self.lookup(netuid) {
            Some(i) => i,
            None => {
                return;
            },
        };
        let price = self.get_alpha_price(netuid).bits;
        let moving = self.subnets[i].moving_price.bits;
        let elapsed = self.block_number.saturating_sub(self.subnets[i].moving_price_updated_at);
        let halving = self.subnets[i].ema_halving_blocks;
        let total: u128 = elapsed as u128 + halving as u128;
        assert(elapsed as int * FRAC_SCALE as int <= u64::MAX as int * FRAC_SCALE as int)
            by (nonlinear_arith);
        let w: u128 = if total == 0 {
            FRAC_SCALE
        } else {
            (elapsed as u128 * FRAC_SCALE) / total
        };
        assert(w <= FRAC_SCALE) by {
            if total != 0 {
                assert((elapsed as int * FRAC_SCALE as int) / total as int <= FRAC_SCALE as int)
                    by (nonlinear_arith)
                    requires
                        total > 0,
                        elapsed <= total,
                ;
            }
        }
        proof {
            lemma_price_bounded(*self, netuid);
            lemma_step_between(moving as int, price as int, w as int);
        }
        let new_bits: u128 = if price >= moving {
            let d: u128 = price - moving;
            assert(d as int * w as int <= MAX_PRICE_BITS as int * FRAC_SCALE as int) by (nonlinear_arith)
                requires
                    d <= MAX_PRICE_BITS,
                    w <= FRAC_SCALE,
            ;
            moving + (d * w) / FRAC_SCALE
        } else {
            let d: u128 = moving - price;
            assert(d as int * w as int <= MAX_PRICE_BITS as int * FRAC_SCALE as int) by (nonlinear_arith)
                requires
                    d <= MAX_PRICE_BITS,
                    w <= FRAC_SCALE,
            ;
            moving - (d * w) / FRAC_SCALE
        };
        let ghost p0 = *self;
        self.subnets[i].moving_price = Fixed { bits: new_bits };
        self.subnets[i].moving_price_updated_at = self.block_number;
        proof {
            assert(forall|k: int| 0 <= k < self.subnets@.len() ==> #[trigger] self.subnets@[k].netuid == p0.subnets@[k].netuid);
        }
    }
}

proof fn lemma_price_bounded(p: Pallet, netuid: u16)
    ensures
        0 <= spot_price_bits(p, netuid) <= MAX_PRICE_BITS,
{
    if netuid != ROOT_NETUID && netuid_in_use(p.subnets@, netuid) {
        let s = subnet_of(p, netuid);
        if s.alpha_in_reserve != 0 {
            let t = s.tao_reserve as int;
            let a = s.alpha_in_reserve as int;
            assert((t * FRAC_SCALE as int) / a <= t * FRAC_SCALE as int) by (nonlinear_arith)
                requires
                    a >= 1,
                    t >= 0,
            ;
            assert(t * FRAC_SCALE as int <= u64::MAX as int * FRAC_SCALE as int) by (nonlinear_arith)
                requires
                    t <= u64::MAX,
            ;
            assert(0 <= (t * FRAC_SCALE as int) / a) by (nonlinear_arith)
                requires
                    a >= 1,
                    t >= 0,
            ;
        }
    }
}


/// Simulating a sale of TAO to a subnet's pool and, on the same reserves, a sale of the
/// Alpha it yields back never gives more TAO than was put in.
pub proof fn lemma_sim_round_trip_no_gain(p: Pallet, netuid: u16, tao: u64)
    ensures
        subnet_swap(p, netuid, true, tao) matches Some(alpha) ==> (subnet_swap(
            p,
            netuid,
            false,
            alpha,
        ) matches Some(back) ==> back <= tao),
{
    if netuid_in_use(p.subnets@, netuid) {
        let s = subnet_of(p, netuid);
        lemma_round_trip_no_gain(s.tao_reserve, s.alpha_in_reserve, tao);
    }
}

} // verus!
