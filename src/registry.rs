//! The subnet registry: subnet records, the balance ledger it draws locks from,
//! registration of new subnets and the emission start gate.
use vstd::prelude::*;

use crate::fixed::{Fixed, FRAC_SCALE, MAX_PRICE_BITS};
use crate::identity::{identity_valid, is_valid_subnet_identity, SubnetIdentity};
use crate::lock::{check_rate_limit, compute_lock_cost, lock_cost, rate_limit_passed, sat_sub};
use crate::pool::{bootstrap_pool, pool_share};

verus! {

/// An account of the ledger (a cold key or a hot key).
pub type AccountId = u64;

/// The netuid of the permanent root subnet; registration never allocates it.
pub const ROOT_NETUID: u16 = 0;

/// The one mechanism that registration accepts: a pool-backed ("dynamic") subnet.
pub const DYNAMIC_MECHANISM: u16 = 1;

/// The half-life, in blocks, of a new subnet's moving price.
pub const DEFAULT_EMA_HALVING_BLOCKS: u64 = 201600;

/// Why a registration or an emission start was refused.
#[derive(Clone, Copy, Debug, PartialEq, Eq, Structural)]
pub enum Error {
    /// The operational key is held by another cold key.
    IdentityConflict,
    /// The requested mechanism is not the dynamic one.
    UnsupportedMechanism,
    /// The previous registration is too recent.
    RateLimitExceeded,
    /// The caller's balance is below the lock cost.
    InsufficientBalance,
    /// The ledger refused the withdrawal (the account is frozen).
    LedgerWithdrawalFailed,
    /// The identity attached to the registration is malformed.
    InvalidIdentity,
    /// Every netuid is taken.
    NetuidsExhausted,
    /// No subnet has the netuid.
    SubnetNotFound,
    /// The caller does not own the subnet.
    NotSubnetOwner,
    /// Emission was started for the subnet already.
    EmissionAlreadySet,
    /// The subnet was registered too recently to start emission.
    MaturationNotReached,
}

/// The per-subnet parameters that registration initialises.
#[derive(Clone, Copy, Debug, PartialEq, Eq, Structural)]
pub struct HyperParams {
    pub tempo: u16,
    pub modality: u16,
    pub registration_allowed: bool,
    pub max_allowed_uids: u16,
    pub max_allowed_validators: u16,
    pub min_allowed_weights: u16,
    pub max_weight_limit: u16,
    pub adjustment_interval: u16,
    pub target_registrations_per_interval: u16,
    pub adjustment_alpha: u64,
    pub immunity_period: u16,
    pub min_difficulty: u64,
    pub max_difficulty: u64,
    pub kappa: u16,
    pub difficulty: u64,
    pub activity_cutoff: u16,
    pub registrations_this_interval: u16,
    pub pow_registrations_this_interval: u16,
    pub burn_registrations_this_interval: u16,
}

/// The parameters of a new subnet with the given tempo.
pub open spec fn default_hyperparams(tempo: u16) -> HyperParams {
    HyperParams {
        tempo,
        modality: 0,
        registration_allowed: true,
        max_allowed_uids: 256,
        max_allowed_validators: 64,
        min_allowed_weights: 1,
        max_weight_limit: u16::MAX,
        adjustment_interval: 360,
        target_registrations_per_interval: 1,
        adjustment_alpha: 17_893_341_751_498_265_066,
        immunity_period: 5000,
        min_difficulty: u64::MAX,
        max_difficulty: u64::MAX,
        kappa: 32_767,
        difficulty: 10_000_000,
        activity_cutoff: 5000,
        registrations_this_interval: 0,
        pow_registrations_this_interval: 0,
        burn_registrations_this_interval: 0,
    }
}

impl HyperParams {
    /// Every parameter of a new subnet, set explicitly.
    pub fn with_defaults(tempo: u16) -> (r: HyperParams)
        ensures
            r == default_hyperparams(tempo),
    {
        HyperParams {
            tempo,
            modality: 0,
            registration_allowed: true,
            max_allowed_uids: 256,
            max_allowed_validators: 64,
            min_allowed_weights: 1,
            max_weight_limit: u16::MAX,
            adjustment_interval: 360,
            target_registrations_per_interval: 1,
            adjustment_alpha: 17_893_341_751_498_265_066,
            immunity_period: 5000,
            min_difficulty: u64::MAX,
            max_difficulty: u64::MAX,
            kappa: 32_767,
            difficulty: 10_000_000,
            activity_cutoff: 5000,
            registrations_this_interval: 0,
            pow_registrations_this_interval: 0,
            burn_registrations_this_interval: 0,
        }
    }
}

/// One registered subnet with its pool and its emission gate.
#[derive(Debug)]
pub struct SubnetInfo {
    pub netuid: u16,
    pub mechanism: u16,
    pub owner: AccountId,
    pub owner_hotkey: AccountId,
    pub registered_at: u64,
    pub params: HyperParams,
    /// The number of neurons in the subnet.
    pub subnetwork_n: u16,
    pub tao_reserve: u64,
    pub alpha_in_reserve: u64,
    pub alpha_out_issued: u64,
    pub moving_price: Fixed,
    /// The block at which the moving price was last brought up to date.
    pub moving_price_updated_at: u64,
    pub ema_halving_blocks: u64,
    pub volume: u128,
    pub total_stake_at_dynamic: u64,
    /// The block from which the subnet receives emission; unset until started.
    pub first_emission_block: Option<u64>,
    pub identity: Option<SubnetIdentity>,
}

/// A ledger account: its free balance, and whether withdrawals from it are refused.
#[derive(Clone, Copy, Debug, PartialEq, Eq, Structural)]
pub struct Account {
    pub id: AccountId,
    pub free: u64,
    pub frozen: bool,
}

/// A neuron of a subnet's roster.
#[derive(Clone, Copy, Debug, PartialEq, Eq, Structural)]
pub struct Neuron {
    pub netuid: u16,
    pub hotkey: AccountId,
    pub registered_at: u64,
}

/// The whole state of the registry: subnets, ledger, lock pricing and the clock.
#[derive(Debug)]
pub struct Pallet {
    /// The current block height.
    pub block_number: u64,
    pub subnets: Vec<SubnetInfo>,
    pub total_networks: u16,
    pub accounts: Vec<Account>,
    /// Pairs of a hot key and the cold key that controls it.
    pub hotkey_owners: Vec<(AccountId, AccountId)>,
    pub neurons: Vec<Neuron>,
    pub network_rate_limit: u64,
    /// The block of the last registration.
    pub network_last_registered: u64,
    /// The TAO locked by the last registration.
    pub network_last_lock: u64,
    pub network_min_lock: u64,
    pub network_max_lock: u64,
    pub lock_reduction_interval: u64,
    pub default_tempo: u16,
    /// The blocks a subnet must wait after registration before starting emission.
    pub start_call_delay: u64,
    pub total_stake: u64,
    pub total_issuance: u64,
    /// The global TAO weight, as a fraction of `u64::MAX`.
    pub tao_weight: u64,
}

pub open spec fn netuid_in_use(subs: Seq<SubnetInfo>, n: u16) -> bool {
    exists|i: int| 0 <= i < subs.len() && (#[trigger] subs[i]).netuid == n
}

/// `n` is the smallest netuid of at least one that `subs` does not use.
pub open spec fn is_next_netuid(subs: Seq<SubnetInfo>, n: u16) -> bool {
    &&& n >= 1
    &&& !netuid_in_use(subs, n)
    &&& forall|k: u16| 1 <= k < n ==> netuid_in_use(subs, k)
}

/// Every netuid of at least one is in use.
pub open spec fn netuids_exhausted(subs: Seq<SubnetInfo>) -> bool {
    forall|k: u16| k >= 1 ==> netuid_in_use(subs, k)
}

pub open spec fn account_exists(accts: Seq<Account>, id: AccountId) -> bool {
    exists|i: int| 0 <= i < accts.len() && (#[trigger] accts[i]).id == id
}

pub open spec fn hotkey_exists(pairs: Seq<(AccountId, AccountId)>, hotkey: AccountId) -> bool {
    exists|i: int| 0 <= i < pairs.len() && (#[trigger] pairs[i]).0 == hotkey
}

pub open spec fn owns_hotkey(
    pairs: Seq<(AccountId, AccountId)>,
    coldkey: AccountId,
    hotkey: AccountId,
) -> bool {
    exists|i: int| 0 <= i < pairs.len() && #[trigger] pairs[i] == (hotkey, coldkey)
}

/// A new subnet record: every parameter at its default, mechanism zero, no owner,
/// an empty pool, no identity and emission not started.
pub open spec fn default_subnet(netuid: u16, tempo: u16) -> SubnetInfo {
    SubnetInfo {
        netuid,
        mechanism: 0,
        owner: 0,
        owner_hotkey: 0,
        registered_at: 0,
        params: default_hyperparams(tempo),
        subnetwork_n: 0,
        tao_reserve: 0,
        alpha_in_reserve: 0,
        alpha_out_issued: 0,
        moving_price: Fixed { bits: 0 },
        moving_price_updated_at: 0,
        ema_halving_blocks: DEFAULT_EMA_HALVING_BLOCKS,
        volume: 0,
        total_stake_at_dynamic: 0,
        first_emission_block: None,
        identity: None,
    }
}

impl Pallet {
    /// The state is well formed: netuids and account ids are unique, the subnet
    /// counter matches the records, and the lock bounds are ordered.
    pub open spec fn wf(&self) -> bool {
        &&& forall|i: int, j: int|
            0 <= i < j < self.subnets@.len() ==> (#[trigger] self.subnets@[i]).netuid
                != (#[trigger] self.subnets@[j]).netuid
        &&& forall|i: int, j: int|
            0 <= i < j < self.accounts@.len() ==> (#[trigger] self.accounts@[i]).id
                != (#[trigger] self.accounts@[j]).id
        &&& self.total_networks as int == self.subnets@.len()
        &&& forall|i: int|
            0 <= i < self.subnets@.len() ==> (#[trigger] self.subnets@[i]).moving_price.bits
                <= MAX_PRICE_BITS
        &&& self.network_min_lock <= self.network_max_lock
    }

    /// The TAO that a registration at the current block has to lock.
    pub open spec fn current_lock_cost(&self) -> u64 {
        lock_cost(
            self.network_last_lock,
            self.network_last_registered,
            self.block_number,
            self.lock_reduction_interval,
            self.network_min_lock,
            self.network_max_lock,
        )
    }
}


impl Pallet {
    /// In a well-formed state, the record at `i` is the one record with its netuid.
    pub proof fn lemma_subnet_index(&self, i: int)
        requires
            self.wf(),
            0 <= i < self.subnets@.len(),
        ensures
            netuid_in_use(self.subnets@, self.subnets@[i].netuid),
            subnet_index(self.subnets@, self.subnets@[i].netuid) == i,
            forall|j: int|
                0 <= j < self.subnets@.len() && (#[trigger] self.subnets@[j]).netuid
                    == self.subnets@[i].netuid ==> j == i,
    {
        let netuid = self.subnets@[i].netuid;
        assert(netuid_in_use(self.subnets@, netuid));
        assert forall|j: int|
            0 <= j < self.subnets@.len() && (#[trigger] self.subnets@[j]).netuid == netuid
            implies j == i by {
            if j < i {
                assert(self.subnets@[j].netuid != self.subnets@[i].netuid);
            } else if j > i {
                assert(self.subnets@[i].netuid != self.subnets@[j].netuid);
            }
        }
        let k = subnet_index(self.subnets@, netuid);
        assert(self.subnets@[k].netuid == netuid);
    }

    /// In a well-formed state, the account at `i` is the one account with its id.
    pub proof fn lemma_account_index(&self, i: int)
        requires
            self.wf(),
            0 <= i < self.accounts@.len(),
        ensures
            forall|j: int|
                0 <= j < self.accounts@.len() && (#[trigger] self.accounts@[j]).id
                    == self.accounts@[i].id ==> j == i,
    {
        assert forall|j: int|
            0 <= j < self.accounts@.len() && (#[trigger] self.accounts@[j]).id
                == self.accounts@[i].id implies j == i by {
            if j < i {
                assert(self.accounts@[j].id != self.accounts@[i].id);
            } else if j > i {
                assert(self.accounts@[i].id != self.accounts@[j].id);
            }
        }
    }

    /// Index of the subnet with the given netuid.
    pub fn find_subnet(&self, netuid: u16) -> (r: Option<usize>)
        ensures
            match r {
                Some(i) => i < self.subnets@.len() && self.subnets@[i as int].netuid == netuid,
                None => !netuid_in_use(self.subnets@, netuid),
            },
    {
        let mut i: usize = 0;
        while i < self.subnets.len()
            invariant
                i <= self.subnets@.len(),
                forall|k: int| 0 <= k < i ==> (#[trigger] self.subnets@[k]).netuid != netuid,
            decreases self.subnets@.len() - i,
        {
            if self.subnets[i].netuid == netuid {
                return Some(i);
            }
            i = i + 1;
        }
        None
    }

    /// Index of the ledger account with the given id.
    pub fn find_account(&self, id: AccountId) -> (r: Option<usize>)
        ensures
            match r {
                Some(i) => i < self.accounts@.len() && self.accounts@[i as int].id == id,
                None => !account_exists(self.accounts@, id),
            },
    {
        let mut i: usize = 0;
        while i < self.accounts.len()
            invariant
                i <= self.accounts@.len(),
                forall|k: int| 0 <= k < i ==> (#[trigger] self.accounts@[k]).id != id,
            decreases self.accounts@.len() - i,
        {
            if self.accounts[i].id == id {
                return Some(i);
            }
            i = i + 1;
        }
        None
    }

    /// Whether some cold key controls the hot key.
    pub fn hotkey_account_exists(&self, hotkey: AccountId) -> (r: bool)
        ensures
            r == hotkey_exists(self.hotkey_owners@, hotkey),
    {
        let mut i: usize = 0;
        while i < self.hotkey_owners.len()
            invariant
                i <= self.hotkey_owners@.len(),
                forall|k: int| 0 <= k < i ==> (#[trigger] self.hotkey_owners@[k]).0 != hotkey,
            decreases self.hotkey_owners@.len() - i,
        {
            if self.hotkey_owners[i].0 == hotkey {
                return true;
            }
            i = i + 1;
        }
        false
    }

    /// Whether the cold key controls the hot key.
    pub fn coldkey_owns_hotkey(&self, coldkey: AccountId, hotkey: AccountId) -> (r: bool)
        ensures
            r == owns_hotkey(self.hotkey_owners@, coldkey, hotkey),
    {
        let mut i: usize = 0;
        while i < self.hotkey_owners.len()
            invariant
                i <= self.hotkey_owners@.len(),
                forall|k: int|
                    0 <= k < i ==> #[trigger] self.hotkey_owners@[k] != (hotkey, coldkey),
            decreases self.hotkey_owners@.len() - i,
        {
            let (h, c) = self.hotkey_owners[i];
            if h == hotkey && c == coldkey {
                return true;
            }
            i = i + 1;
        }
        false
    }

    /// The netuid of the root subnet.
    pub fn get_root_netuid() -> (r: u16)
        ensures
            r == ROOT_NETUID,
    {
        ROOT_NETUID
    }

    /// The number of registered subnets.
    pub fn get_num_subnets(&self) -> (r: u16)
        requires
            self.wf(),
        ensures
            r as int == self.subnets@.len(),
    {
        self.total_networks
    }

    /// Whether a subnet with the netuid exists.
    pub fn if_subnet_exist(&self, netuid: u16) -> (r: bool)
        ensures
            r == netuid_in_use(self.subnets@, netuid),
    {
        self.find_subnet(netuid).is_some()
    }

    /// The netuids of all subnets, in order of registration.
    pub fn get_all_subnet_netuids(&self) -> (r: Vec<u16>)
        ensures
            r@.len() == self.subnets@.len(),
            forall|i: int| 0 <= i < r@.len() ==> r@[i] == (#[trigger] self.subnets@[i]).netuid,
    {
        let mut out: Vec<u16> = Vec::new();
        let mut i: usize = 0;
        while i < self.subnets.len()
            invariant
                i <= self.subnets@.len(),
                out@.len() == i,
                forall|k: int| 0 <= k < i ==> out@[k] == (#[trigger] self.subnets@[k]).netuid,
            decreases self.subnets@.len() - i,
        {
            out.push(self.subnets[i].netuid);
            i = i + 1;
        }
        out
    }

    /// The mechanism of the subnet; zero for an unknown netuid.
    pub fn get_subnet_mechanism(&self, netuid: u16) -> (r: u16)
        requires
            self.wf(),
        ensures
            forall|i: int|
                0 <= i < self.subnets@.len() && (#[trigger] self.subnets@[i]).netuid == netuid
                    ==> r == self.subnets@[i].mechanism,
            !netuid_in_use(self.subnets@, netuid) ==> r == 0,
    {
        match self.find_subnet(netuid) {
            Some(i) => self.subnets[i].mechanism,
            None => 0,
        }
    }

    /// The smallest netuid of at least one that no subnet uses; `u16::MAX` when every
    /// netuid is taken.
    pub fn get_next_netuid(&self) -> (r: u16)
        ensures
            r >= 1,
            forall|k: u16| 1 <= k < r ==> netuid_in_use(self.subnets@, k),
            !netuid_in_use(self.subnets@, r) ==> is_next_netuid(self.subnets@, r),
            netuid_in_use(self.subnets@, r) ==> r == u16::MAX && netuids_exhausted(
                self.subnets@,
            ),
    {
        let mut next: u16 = 1;
        while next < u16::MAX && self.if_subnet_exist(next)
            invariant
                1 <= next,
                forall|k: u16| 1 <= k < next ==> netuid_in_use(self.subnets@, k),
            decreases u16::MAX - next,
        {
            next = next + 1;
        }
        next
    }

    /// Sets the number of blocks that must separate two registrations.
    pub fn set_network_rate_limit(&mut self, limit: u64)
        ensures
            *final(self) == (Pallet { network_rate_limit: limit, ..*old(self) }),
    {
        self.network_rate_limit = limit;
    }

    /// Whether the subnet accepts neuron registrations; false for an unknown netuid.
    pub fn is_registration_allowed(&self, netuid: u16) -> (r: bool)
        requires
            self.wf(),
        ensures
            forall|i: int|
                0 <= i < self.subnets@.len() && (#[trigger] self.subnets@[i]).netuid == netuid
                    ==> r == self.subnets@[i].params.registration_allowed,
            !netuid_in_use(self.subnets@, netuid) ==> !r,
    {
        match self.find_subnet(netuid) {
            Some(i) => self.subnets[i].params.registration_allowed,
            None => false,
        }
    }

    /// Adds a subnet with the netuid, empty, with every parameter at its default and
    /// no pool, owner or emission yet, and counts it.
    pub fn init_new_network(&mut self, netuid: u16, tempo: u16)
        requires
            old(self).wf(),
            !netuid_in_use(old(self).subnets@, netuid),
            old(self).total_networks < u16::MAX,
        ensures
            final(self).wf(),
            final(self).subnets@ == old(self).subnets@.push(default_subnet(netuid, tempo)),
            *final(self) == (Pallet {
                subnets: final(self).subnets,
                total_networks: (old(self).total_networks + 1) as u16,
                ..*old(self)
            }),
    {
        let info = SubnetInfo {
            netuid,
            mechanism: 0,
            owner: 0,
            owner_hotkey: 0,
            registered_at: 0,
            params: HyperParams::with_defaults(tempo),
            subnetwork_n: 0,
            tao_reserve: 0,
            alpha_in_reserve: 0,
            alpha_out_issued: 0,
            moving_price: Fixed::zero(),
            moving_price_updated_at: 0,
            ema_halving_blocks: DEFAULT_EMA_HALVING_BLOCKS,
            volume: 0,
            total_stake_at_dynamic: 0,
            first_emission_block: None,
            identity: None,
        };
        self.subnets.push(info);
        self.total_networks = self.total_networks + 1;
        proof {
            assert(self.subnets@.drop_last() =~= old(self).subnets@);
            assert(self.subnets@ =~= old(self).subnets@.push(default_subnet(netuid, tempo)));
            assert forall|i: int, j: int|
                0 <= i < j < self.subnets@.len() implies (#[trigger] self.subnets@[i]).netuid
                != (#[trigger] self.subnets@[j]).netuid by {
                if j == self.subnets@.len() - 1 {
                    assert(old(self).subnets@[i] == self.subnets@[i]);
                }
            }
        }
    }
}


/// `a + b`, clamped to the `u64` range.
pub open spec fn sat_add(a: u64, b: u64) -> u64 {
    if a as int + b as int > u64::MAX as int {
        u64::MAX
    } else {
        (a + b) as u64
    }
}

/// The account `id` holds at least `amount`.
pub open spec fn has_balance(accts: Seq<Account>, id: AccountId, amount: u64) -> bool {
    exists|i: int| 0 <= i < accts.len() && (#[trigger] accts[i]).id == id && accts[i].free >= amount
}

/// The account `id` refuses withdrawals.
pub open spec fn is_frozen(accts: Seq<Account>, id: AccountId) -> bool {
    exists|i: int| 0 <= i < accts.len() && (#[trigger] accts[i]).id == id && accts[i].frozen
}

/// The identity, where one is given, is valid.
pub open spec fn identity_ok(identity: Option<SubnetIdentity>) -> bool {
    match identity {
        Some(id) => identity_valid(id),
        None => true,
    }
}

/// The error a registration by `coldkey` meets on state `p`, checked in this order;
/// `None` where it goes through.
pub open spec fn registration_error(
    p: Pallet,
    coldkey: AccountId,
    hotkey: AccountId,
    mechid: u16,
    identity: Option<SubnetIdentity>,
) -> Option<Error> {
    if hotkey_exists(p.hotkey_owners@, hotkey) && !owns_hotkey(p.hotkey_owners@, coldkey, hotkey) {
        Some(Error::IdentityConflict)
    } else if mechid != DYNAMIC_MECHANISM {
        Some(Error::UnsupportedMechanism)
    } else if !rate_limit_passed(p.block_number, p.network_last_registered, p.network_rate_limit) {
        Some(Error::RateLimitExceeded)
    } else if !has_balance(p.accounts@, coldkey, p.current_lock_cost()) {
        Some(Error::InsufficientBalance)
    } else if is_frozen(p.accounts@, coldkey) {
        Some(Error::LedgerWithdrawalFailed)
    } else if !identity_ok(identity) {
        Some(Error::InvalidIdentity)
    } else if p.total_networks == u16::MAX || netuids_exhausted(p.subnets@) {
        Some(Error::NetuidsExhausted)
    } else {
        None
    }
}

/// `q` is `p` after a successful registration by `coldkey` with operational key
/// `hotkey`: the lock is withdrawn, the next free netuid gets a new subnet whose pool
/// holds `min(lock, min_lock)` TAO against as much Alpha, the rest of the lock is
/// burned, and the lock window restarts at the current block.
pub open spec fn registration_effect(
    p: Pallet,
    q: Pallet,
    coldkey: AccountId,
    hotkey: AccountId,
    mechid: u16,
    identity: Option<SubnetIdentity>,
) -> bool {
    let cost = p.current_lock_cost();
    let pool = pool_share(cost, p.network_min_lock);
    let rec = q.subnets@.last();
    &&& q.subnets@.len() == p.subnets@.len() + 1
    &&& q.subnets@.drop_last() == p.subnets@
    &&& is_next_netuid(p.subnets@, rec.netuid)
    &&& rec.mechanism == mechid
    &&& rec.owner == coldkey
    &&& rec.owner_hotkey == hotkey
    &&& rec.registered_at == p.block_number
    &&& rec.params == default_hyperparams(p.default_tempo)
    &&& rec.subnetwork_n == 1
    &&& rec.tao_reserve == pool
    &&& rec.alpha_in_reserve == pool
    &&& rec.alpha_out_issued == 0
    &&& rec.moving_price.bits == (if pool > 0 { FRAC_SCALE } else { 0 })
    &&& rec.moving_price_updated_at == p.block_number
    &&& rec.ema_halving_blocks == DEFAULT_EMA_HALVING_BLOCKS
    &&& rec.volume == 0
    &&& rec.total_stake_at_dynamic == p.total_stake
    &&& rec.first_emission_block is None
    &&& rec.identity == identity
    &&& q.total_networks == p.total_networks + 1
    &&& exists|i: int|
        0 <= i < p.accounts@.len() && (#[trigger] p.accounts@[i]).id == coldkey
            && q.accounts@ == p.accounts@.update(
            i,
            Account { free: (p.accounts@[i].free - cost) as u64, ..p.accounts@[i] },
        )
    &&& q.total_issuance == sat_sub(p.total_issuance, (cost - pool) as u64)
    &&& q.total_stake == (if pool > 0 { sat_add(p.total_stake, pool) } else { p.total_stake })
    &&& q.network_last_registered == p.block_number
    &&& q.network_last_lock == cost
    &&& q.neurons@ == p.neurons@.push(
        Neuron { netuid: rec.netuid, hotkey, registered_at: p.block_number },
    )
    &&& q.hotkey_owners@ == (if hotkey_exists(p.hotkey_owners@, hotkey) {
        p.hotkey_owners@
    } else {
        p.hotkey_owners@.push((hotkey, coldkey))
    })
    &&& q.block_number == p.block_number
    &&& q.network_rate_limit == p.network_rate_limit
    &&& q.network_min_lock == p.network_min_lock
    &&& q.network_max_lock == p.network_max_lock
    &&& q.lock_reduction_interval == p.lock_reduction_interval
    &&& q.default_tempo == p.default_tempo
    &&& q.start_call_delay == p.start_call_delay
    &&& q.tao_weight == p.tao_weight
}

impl Pallet {
    /// Registers a new subnet owned by `coldkey`, locking the current lock cost from
    /// its balance. Every check runs before any change, so a refused registration
    /// leaves the state as it was.
    pub fn do_register_network(
        &mut self,
        coldkey: AccountId,
        hotkey: AccountId,
        mechid: u16,
        identity: Option<SubnetIdentity>,
    ) -> (r: Result<(), Error>)
        requires
            old(self).wf(),
        ensures
            final(self).wf(),
            match r {
                Ok(()) => registration_error(*old(self), coldkey, hotkey, mechid, identity) is None
                    && registration_effect(*old(self), *final(self), coldkey, hotkey, mechid, identity),
                Err(e) => registration_error(*old(self), coldkey, hotkey, mechid, identity) == Some(e)
                    && *final(self) == *old(self),
            },
    {
        // The operational key must be free or already the caller's.
        if self.hotkey_account_exists(hotkey) && !self.coldkey_owns_hotkey(coldkey, hotkey) {
            return Err(Error::IdentityConflict);
        }
        if mechid != DYNAMIC_MECHANISM {
            return Err(Error::UnsupportedMechanism);
        }
        let current_block = self.block_number;
        if !check_rate_limit(current_block, self.network_last_registered, self.network_rate_limit) {
            return Err(Error::RateLimitExceeded);
        }
        let lock_amount = compute_lock_cost(
            self.network_last_lock,
            self.network_last_registered,
            current_block,
            self.lock_reduction_interval,
            self.network_min_lock,
            self.network_max_lock,
        );
        let ai = match self.find_account(coldkey) {
            Some(i) => i,
            None => {
                return Err(Error::InsufficientBalance);
            },
        };
        let acct = self.accounts[ai];
        if acct.free < lock_amount {
            assert(!has_balance(self.accounts@, coldkey, lock_amount)) by {
                if has_balance(self.accounts@, coldkey, lock_amount) {
                    let j = choose|j: int|
                        0 <= j < self.accounts@.len() && (#[trigger] self.accounts@[j]).id
                            == coldkey && self.accounts@[j].free >= lock_amount;
                    assert(j == ai);
                }
            }
            return Err(Error::InsufficientBalance);
        }
        if acct.frozen {
            return Err(Error::LedgerWithdrawalFailed);
        }
        assert(!is_frozen(self.accounts@, coldkey)) by {
            if is_frozen(self.accounts@, coldkey) {
                let j = choose|j: int|
                    0 <= j < self.accounts@.len() && (#[trigger] self.accounts@[j]).id == coldkey
                        && self.accounts@[j].frozen;
                assert(j == ai);
            }
        }
        // The identity is checked before anything is withdrawn.
        match &identity {
            Some(id) => {
                if !is_valid_subnet_identity(id) {
                    return Err(Error::InvalidIdentity);
                }
            },
            None => {},
        }
        let netuid = self.get_next_netuid();
        if self.total_networks == u16::MAX || self.if_subnet_exist(netuid) {
            return Err(Error::NetuidsExhausted);
        }
        let ghost p0 = *self;

        // Withdraw the lock and record it for pricing the next registration.
        self.accounts.set(
            ai,
            Account { id: acct.id, free: acct.free - lock_amount, frozen: acct.frozen },
        );
        self.network_last_lock = lock_amount;
        assert(self.accounts@ == p0.accounts@.update(
            ai as int,
            Account { free: (p0.accounts@[ai as int].free - lock_amount) as u64, ..p0.accounts@[ai as int] },
        ));

        let tempo = self.default_tempo;
        self.init_new_network(netuid, tempo);
        let ghost mid = self.subnets@;

        if !self.hotkey_account_exists(hotkey) {
            self.hotkey_owners.push((hotkey, coldkey));
        }
        self.neurons.push(Neuron { netuid, hotkey, registered_at: current_block });
        self.network_last_registered = current_block;

        let (pool_tao, burned) = bootstrap_pool(lock_amount, self.network_min_lock);
        let stake_before = self.total_stake;
        let popped = self.subnets.pop();
        let mut rec = match popped {
            Some(x) => x,
            None => {
                assert(false);
                return Err(Error::NetuidsExhausted);
            },
        };
        rec.subnetwork_n = 1;
        rec.mechanism = mechid;
        rec.registered_at = current_block;
        rec.owner = coldkey;
        rec.owner_hotkey = hotkey;
        rec.tao_reserve = pool_tao;
        rec.alpha_in_reserve = pool_tao;
        rec.total_stake_at_dynamic = stake_before;
        rec.moving_price_updated_at = current_block;
        rec.moving_price = if pool_tao > 0 {
            Fixed::one()
        } else {
            Fixed::zero()
        };
        rec.identity = identity;
        self.subnets.push(rec);
        proof {
            assert(self.subnets@.drop_last() =~= p0.subnets@);
            assert forall|i: int| 0 <= i < self.subnets@.len() implies (#[trigger] self.subnets@[i]).netuid
                == mid[i].netuid by {}
        }

        if burned > 0 {
            self.total_issuance = self.total_issuance.saturating_sub(burned);
        }
        if lock_amount > 0 && pool_tao > 0 {
            self.total_stake = self.total_stake.saturating_add(pool_tao);
        }
        Ok(())
    }
}


/// The position of the subnet with the netuid, where there is one.
pub open spec fn subnet_index(subs: Seq<SubnetInfo>, netuid: u16) -> int {
    choose|i: int| 0 <= i < subs.len() && (#[trigger] subs[i]).netuid == netuid
}

/// `q` and `p` agree on everything but their subnet records.
pub open spec fn same_but_subnets(p: Pallet, q: Pallet) -> bool {
    &&& q.block_number == p.block_number
    &&& q.total_networks == p.total_networks
    &&& q.accounts@ == p.accounts@
    &&& q.hotkey_owners@ == p.hotkey_owners@
    &&& q.neurons@ == p.neurons@
    &&& q.network_rate_limit == p.network_rate_limit
    &&& q.network_last_registered == p.network_last_registered
    &&& q.network_last_lock == p.network_last_lock
    &&& q.network_min_lock == p.network_min_lock
    &&& q.network_max_lock == p.network_max_lock
    &&& q.lock_reduction_interval == p.lock_reduction_interval
    &&& q.default_tempo == p.default_tempo
    &&& q.start_call_delay == p.start_call_delay
    &&& q.total_stake == p.total_stake
    &&& q.total_issuance == p.total_issuance
    &&& q.tao_weight == p.tao_weight
}

/// The error that starting emission of `netuid` by `caller` meets on `p`, checked in
/// this order; `None` where it goes through.
pub open spec fn start_call_error(p: Pallet, caller: AccountId, netuid: u16) -> Option<Error> {
    if !netuid_in_use(p.subnets@, netuid) {
        Some(Error::SubnetNotFound)
    } else {
        let s = p.subnets@[subnet_index(p.subnets@, netuid)];
        if s.owner != caller {
            Some(Error::NotSubnetOwner)
        } else if s.first_emission_block is Some {
            Some(Error::EmissionAlreadySet)
        } else if p.block_number < sat_add(s.registered_at, p.start_call_delay) {
            Some(Error::MaturationNotReached)
        } else {
            None
        }
    }
}

/// `q` is `p` with emission of `netuid` starting at the block after the current one.
pub open spec fn start_call_effect(p: Pallet, q: Pallet, netuid: u16) -> bool {
    let i = subnet_index(p.subnets@, netuid);
    &&& same_but_subnets(p, q)
    &&& q.subnets@.len() == p.subnets@.len()
    &&& forall|j: int| 0 <= j < p.subnets@.len() && j != i ==> #[trigger] q.subnets@[j] == p.subnets@[j]
    &&& q.subnets@[i].first_emission_block == Some(sat_add(p.block_number, 1))
    &&& q.subnets@[i] == SubnetInfo {
        first_emission_block: Some(sat_add(p.block_number, 1)),
        ..p.subnets@[i]
    }
}

impl Pallet {
    /// Starts emission of a subnet at the next block, for its owner, once the subnet
    /// has matured and only once.
    pub fn do_start_call(&mut self, caller: AccountId, netuid: u16) -> (r: Result<(), Error>)
        requires
            old(self).wf(),
        ensures
            final(self).wf(),
            match r {
                Ok(()) => start_call_error(*old(self), caller, netuid) is None
                    && start_call_effect(*old(self), *final(self), netuid),
                Err(e) => start_call_error(*old(self), caller, netuid) == Some(e)
                    && *final(self) == *old(self),
            },
    {
        let i = match self.find_subnet(netuid) {
            Some(i) => i,
            None => {
                return Err(Error::SubnetNotFound);
            },
        };
        proof {
            self.lemma_subnet_index(i as int);
        }
        if self.subnets[i].owner != caller {
            return Err(Error::NotSubnetOwner);
        }
        if self.subnets[i].first_emission_block.is_some() {
            return Err(Error::EmissionAlreadySet);
        }
        let registered_at = self.subnets[i].registered_at;
        let current_block = self.block_number;
        if current_block < registered_at.saturating_add(self.start_call_delay) {
            return Err(Error::MaturationNotReached);
        }
        let next_block = current_block.saturating_add(1);
        let ghost p0 = *self;
        self.subnets[i].first_emission_block = Some(next_block);
        proof {
            assert(self.subnets@[i as int] == SubnetInfo {
                first_emission_block: Some(sat_add(p0.block_number, 1)),
                ..p0.subnets@[i as int]
            });
        }
        Ok(())
    }

    /// Whether emission of the subnet has been started.
    pub fn is_valid_subnet_for_emission(&self, netuid: u16) -> (r: bool)
        requires
            self.wf(),
        ensures
            forall|i: int|
                0 <= i < self.subnets@.len() && (#[trigger] self.subnets@[i]).netuid == netuid
                    ==> r == self.subnets@[i].first_emission_block is Some,
            !netuid_in_use(self.subnets@, netuid) ==> !r,
    {
        match self.find_subnet(netuid) {
            Some(i) => self.subnets[i].first_emission_block.is_some(),
            None => false,
        }
    }
}


impl Pallet {
    /// A chain at genesis: block zero, the root subnet alone, no account, no lock
    /// recorded, no rate limit, and lock prices bounded by `[min_lock, max_lock]`.
    pub fn new(min_lock: u64, max_lock: u64) -> (r: Pallet)
        requires
            min_lock <= max_lock,
        ensures
            r.wf(),
            r.block_number == 0,
            r.subnets@ == seq![default_subnet(ROOT_NETUID, 360)],
            r.total_networks == 1,
            r.accounts@.len() == 0,
            r.hotkey_owners@.len() == 0,
            r.neurons@.len() == 0,
            r.network_rate_limit == 0,
            r.network_last_registered == 0,
            r.network_last_lock == 0,
            r.network_min_lock == min_lock,
            r.network_max_lock == max_lock,
            r.lock_reduction_interval == 0,
            r.default_tempo == 360,
            r.start_call_delay == 0,
            r.total_stake == 0,
            r.total_issuance == 0,
            r.tao_weight == 0,
    {
        let mut p = Pallet {
            block_number: 0,
            subnets: Vec::new(),
            total_networks: 0,
            accounts: Vec::new(),
            hotkey_owners: Vec::new(),
            neurons: Vec::new(),
            network_rate_limit: 0,
            network_last_registered: 0,
            network_last_lock: 0,
            network_min_lock: min_lock,
            network_max_lock: max_lock,
            lock_reduction_interval: 0,
            default_tempo: 360,
            start_call_delay: 0,
            total_stake: 0,
            total_issuance: 0,
            tao_weight: 0,
        };
        p.init_new_network(ROOT_NETUID, 360);
        assert(p.subnets@ =~= seq![default_subnet(ROOT_NETUID, 360)]);
        p
    }

    /// The TAO that a registration at the current block has to lock.
    pub fn get_network_lock_cost(&self) -> (r: u64)
        ensures
            r == self.current_lock_cost(),
    {
        compute_lock_cost(
            self.network_last_lock,
            self.network_last_registered,
            self.block_number,
            self.lock_reduction_interval,
            self.network_min_lock,
            self.network_max_lock,
        )
    }

    /// Advances (or sets) the clock.
    pub fn set_block_number(&mut self, block: u64)
        requires
            old(self).wf(),
        ensures
            final(self).wf(),
            *final(self) == (Pallet { block_number: block, ..*old(self) }),
    {
        self.block_number = block;
    }

    /// Records a lock of `amount` at `block` as the last one.
    pub fn set_network_last_lock(&mut self, amount: u64, block: u64)
        requires
            old(self).wf(),
        ensures
            final(self).wf(),
            *final(self) == (Pallet {
                network_last_lock: amount,
                network_last_registered: block,
                ..*old(self)
            }),
    {
        self.network_last_lock = amount;
        self.network_last_registered = block;
    }

    /// Sets how many blocks it takes for the last lock to decay by its full amount.
    pub fn set_lock_reduction_interval(&mut self, interval: u64)
        requires
            old(self).wf(),
        ensures
            final(self).wf(),
            *final(self) == (Pallet { lock_reduction_interval: interval, ..*old(self) }),
    {
        self.lock_reduction_interval = interval;
    }

    /// Sets how many blocks a subnet waits after registration before it may start emission.
    pub fn set_start_call_delay(&mut self, delay: u64)
        requires
            old(self).wf(),
        ensures
            final(self).wf(),
            *final(self) == (Pallet { start_call_delay: delay, ..*old(self) }),
    {
        self.start_call_delay = delay;
    }

    /// Sets the global TAO weight, as a fraction of `u64::MAX`.
    pub fn set_tao_weight(&mut self, weight: u64)
        requires
            old(self).wf(),
        ensures
            final(self).wf(),
            *final(self) == (Pallet { tao_weight: weight, ..*old(self) }),
    {
        self.tao_weight = weight;
    }

    /// The free balance of the account; zero for an unknown account.
    pub fn get_balance(&self, id: AccountId) -> (r: u64)
        requires
            self.wf(),
        ensures
            forall|i: int|
                0 <= i < self.accounts@.len() && (#[trigger] self.accounts@[i]).id == id ==> r
                    == self.accounts@[i].free,
            !account_exists(self.accounts@, id) ==> r == 0,
    {
        match self.find_account(id) {
            Some(i) => {
                proof {
                    self.lemma_account_index(i as int);
                }
                self.accounts[i].free
            },
            None => 0,
        }
    }

    /// Credits `amount` to the account, opening it where it does not exist; the balance
    /// is clamped to `u64::MAX`. Nothing else changes.
    pub fn add_balance(&mut self, id: AccountId, amount: u64)
        requires
            old(self).wf(),
        ensures
            final(self).wf(),
            *final(self) == (Pallet { accounts: final(self).accounts, ..*old(self) }),
            account_exists(final(self).accounts@, id),
            forall|i: int|
                0 <= i < old(self).accounts@.len() && (#[trigger] old(self).accounts@[i]).id == id
                    ==> final(self).accounts@ == old(self).accounts@.update(
                    i,
                    Account { free: sat_add(old(self).accounts@[i].free, amount), ..old(self).accounts@[i] },
                ),
            !account_exists(old(self).accounts@, id) ==> final(self).accounts@ == old(
                self,
            ).accounts@.push(Account { id, free: amount, frozen: false }),
    {
        match self.find_account(id) {
            Some(i) => {
                proof {
                    self.lemma_account_index(i as int);
                }
                let a = self.accounts[i];
                self.accounts.set(
                    i,
                    Account { id: a.id, free: a.free.saturating_add(amount), frozen: a.frozen },
                );
                assert(self.accounts@[i as int].id == id);
            },
            None => {
                self.accounts.push(Account { id, free: amount, frozen: false });
                proof {
                    let last = self.accounts@.len() - 1;
                    assert(self.accounts@[last].id == id);
                }
            },
        }
    }

    /// Marks the account as refusing withdrawals, or lifts the mark; an unknown account
    /// is left alone. Nothing else changes.
    pub fn set_frozen(&mut self, id: AccountId, frozen: bool)
        requires
            old(self).wf(),
        ensures
            final(self).wf(),
            *final(self) == (Pallet { accounts: final(self).accounts, ..*old(self) }),
            forall|i: int|
                0 <= i < old(self).accounts@.len() && (#[trigger] old(self).accounts@[i]).id == id
                    ==> final(self).accounts@ == old(self).accounts@.update(
                    i,
                    Account { frozen, ..old(self).accounts@[i] },
                ),
            !account_exists(old(self).accounts@, id) ==> final(self).accounts@ == old(self).accounts@,
    {
        match self.find_account(id) {
            Some(i) => {
                proof {
                    self.lemma_account_index(i as int);
                }
                let a = self.accounts[i];
                self.accounts.set(i, Account { id: a.id, free: a.free, frozen });
            },
            None => {},
        }
    }

    /// The block from which the subnet receives emission, where it was started.
    pub fn get_first_emission_block(&self, netuid: u16) -> (r: Option<u64>)
        requires
            self.wf(),
        ensures
            forall|i: int|
                0 <= i < self.subnets@.len() && (#[trigger] self.subnets@[i]).netuid == netuid
                    ==> r == self.subnets@[i].first_emission_block,
            !netuid_in_use(self.subnets@, netuid) ==> r is None,
    {
        match self.find_subnet(netuid) {
            Some(i) => {
                proof {
                    self.lemma_subnet_index(i as int);
                }
                self.subnets[i].first_emission_block
            },
            None => None,
        }
    }

    /// The owner of the subnet, where it exists.
    pub fn get_subnet_owner(&self, netuid: u16) -> (r: Option<AccountId>)
        requires
            self.wf(),
        ensures
            forall|i: int|
                0 <= i < self.subnets@.len() && (#[trigger] self.subnets@[i]).netuid == netuid
                    ==> r == Some(self.subnets@[i].owner),
            !netuid_in_use(self.subnets@, netuid) ==> r is None,
    {
        match self.find_subnet(netuid) {
            Some(i) => {
                proof {
                    self.lemma_subnet_index(i as int);
                }
                Some(self.subnets[i].owner)
            },
            None => None,
        }
    }
}

} // verus!
