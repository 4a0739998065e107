use subnet_registry::fixed::{Fixed, FRAC_SCALE};
use subnet_registry::identity::{is_valid_subnet_identity, SubnetIdentity};
use subnet_registry::lock::{check_rate_limit, compute_lock_cost};
use subnet_registry::pool::{bootstrap_pool, constant_product_out};
use subnet_registry::precompile::AlphaPrecompile;
use subnet_registry::registry::{Error, Pallet, DYNAMIC_MECHANISM};

fn empty_identity() -> SubnetIdentity {
    SubnetIdentity {
        subnet_name: vec![b'a'; 10],
        github_repo: vec![],
        subnet_contact: vec![],
        subnet_url: vec![],
        discord: vec![],
        description: vec![],
        additional: vec![],
    }
}

/// A chain with a minimum lock of `min_lock`, no rate limit, and account 1 holding 1000.
fn chain(min_lock: u64) -> Pallet {
    let mut p = Pallet::new(min_lock, u64::MAX);
    p.add_balance(1, 1000);
    p.total_issuance = 1_000_000;
    p
}

#[test]
fn end_to_end_two_registrations() {
    let mut p = chain(1);
    p.set_network_rate_limit(0);
    p.set_block_number(10);
    p.set_network_last_lock(250, 10);
    assert_eq!(p.get_network_lock_cost(), 500);
    assert_eq!(p.do_register_network(1, 101, DYNAMIC_MECHANISM, None), Ok(()));
    assert_eq!(p.get_all_subnet_netuids(), vec![0, 1]);
    assert_eq!(p.get_tao_in_pool(1), 1);
    assert_eq!(p.get_alpha_in_pool(1), 1);
    assert_eq!(p.get_balance(1), 500);
    assert_eq!(p.total_issuance, 1_000_000 - 499);
    assert_eq!(p.total_stake, 1);
    assert_eq!(p.get_num_subnets(), 2);

    p.add_balance(2, 5000);
    assert_eq!(p.do_register_network(2, 102, DYNAMIC_MECHANISM, None), Ok(()));
    assert_eq!(p.get_all_subnet_netuids(), vec![0, 1, 2]);
    assert_eq!(p.get_subnet_owner(2), Some(2));
    assert_eq!(p.get_num_subnets(), 3);
}

#[test]
fn netuids_fill_the_smallest_gap() {
    let mut p = chain(1);
    p.init_new_network(1, 360);
    p.init_new_network(3, 360);
    assert_eq!(p.get_next_netuid(), 2);
    assert_eq!(p.do_register_network(1, 101, DYNAMIC_MECHANISM, None), Ok(()));
    assert_eq!(p.get_all_subnet_netuids(), vec![0, 1, 3, 2]);
    assert_eq!(p.get_next_netuid(), 4);
}

#[test]
fn netuids_strictly_increase() {
    let mut p = chain(1);
    p.add_balance(1, 1_000_000);
    let mut last = 0u16;
    for k in 0..5u64 {
        assert_eq!(p.do_register_network(1, 200 + k, DYNAMIC_MECHANISM, None), Ok(()));
        let ids = p.get_all_subnet_netuids();
        let n = ids[ids.len() - 1];
        assert!(n > last);
        last = n;
    }
    assert_eq!(p.get_all_subnet_netuids(), vec![0, 1, 2, 3, 4, 5]);
}

#[test]
fn rate_limit_boundary() {
    let mut p = chain(1);
    p.add_balance(1, 1_000_000);
    p.set_network_rate_limit(5);
    p.set_block_number(100);
    assert_eq!(p.do_register_network(1, 101, DYNAMIC_MECHANISM, None), Ok(()));
    p.set_block_number(104);
    assert_eq!(
        p.do_register_network(1, 102, DYNAMIC_MECHANISM, None),
        Err(Error::RateLimitExceeded)
    );
    p.set_block_number(105);
    assert_eq!(p.do_register_network(1, 102, DYNAMIC_MECHANISM, None), Ok(()));
    assert!(!check_rate_limit(104, 100, 5));
    assert!(check_rate_limit(105, 100, 5));
}

#[test]
fn bootstrap_keeps_the_minimum_and_burns_the_rest() {
    assert_eq!(bootstrap_pool(500, 1), (1, 499));
    assert_eq!(bootstrap_pool(10, 10), (10, 0));
    assert_eq!(bootstrap_pool(3, 10), (3, 0));
    assert_eq!(bootstrap_pool(0, 10), (0, 0));
}

#[test]
fn new_pool_prices_at_exactly_one() {
    let mut p = chain(100);
    assert_eq!(p.do_register_network(1, 101, DYNAMIC_MECHANISM, None), Ok(()));
    assert_eq!(p.get_tao_in_pool(1), 100);
    assert_eq!(p.get_alpha_in_pool(1), 100);
    assert_eq!(p.get_alpha_price(1).bits, FRAC_SCALE);
    assert_eq!(p.get_moving_alpha_price(1).bits, FRAC_SCALE);
    assert_eq!(AlphaPrecompile::get_alpha_price(&p, 1), 1);
    assert_eq!(AlphaPrecompile::get_moving_alpha_price(&p, 1), 1);
}

#[test]
fn constant_product_values() {
    assert_eq!(constant_product_out(1000, 1000, 100), Some(90));
    assert_eq!(constant_product_out(1000, 1000, 90), Some(82));
    assert_eq!(constant_product_out(1000, 1000, 0), Some(0));
    assert_eq!(constant_product_out(0, 1000, 5), None);
    assert_eq!(constant_product_out(1000, 0, 5), None);
    assert_eq!(
        constant_product_out(u64::MAX, u64::MAX, u64::MAX),
        Some(9_223_372_036_854_775_807)
    );
}

#[test]
fn sim_round_trip_gives_no_gain() {
    let mut p = chain(1000);
    p.add_balance(1, 1_000_000);
    assert_eq!(p.do_register_network(1, 101, DYNAMIC_MECHANISM, None), Ok(()));
    assert_eq!(p.sim_swap_tao_for_alpha(1, u64::MAX), None);
    for tao in [0u64, 1, 7, 1000, 123_456, u64::MAX - 1000] {
        let alpha = p.sim_swap_tao_for_alpha(1, tao).unwrap();
        let back = p.sim_swap_alpha_for_tao(1, alpha).unwrap();
        assert!(back <= tao);
    }
    assert_eq!(p.sim_swap_tao_for_alpha(1, 100), Some(90));
    assert_eq!(p.sim_swap_alpha_for_tao(1, 90), Some(82));
    assert_eq!(p.sim_swap_tao_for_alpha(9, 100), None);
}

#[test]
fn real_swap_matches_simulation() {
    let mut p = chain(1000);
    p.add_balance(1, 1_000_000);
    assert_eq!(p.do_register_network(1, 101, DYNAMIC_MECHANISM, None), Ok(()));
    let sim = p.sim_swap_tao_for_alpha(1, 1000);
    assert_eq!(sim, Some(500));
    assert_eq!(p.swap_tao_for_alpha(1, 1000), sim);
    assert_eq!(p.get_tao_in_pool(1), 2000);
    assert_eq!(p.get_alpha_in_pool(1), 500);
    assert_eq!(p.get_alpha_out_pool(1), 500);
    assert_eq!(p.get_alpha_issuance(1), 1000);
    assert_eq!(p.get_subnet_volume(1), 1000);
    assert_eq!(p.get_alpha_price(1).bits, 4 * FRAC_SCALE);
    assert_eq!(p.swap_tao_for_alpha(7, 10), None);

    let sim_back = p.sim_swap_alpha_for_tao(1, 500);
    assert_eq!(sim_back, Some(1000));
    assert_eq!(p.swap_alpha_for_tao(1, 500), sim_back);
    assert_eq!(p.get_tao_in_pool(1), 1000);
    assert_eq!(p.get_alpha_in_pool(1), 1000);
    assert_eq!(p.get_alpha_out_pool(1), 0);
    assert_eq!(p.get_subnet_volume(1), 2000);
    assert_eq!(p.swap_alpha_for_tao(7, 10), None);
}

#[test]
fn swaps_refused_alike_where_the_pool_cannot_trade() {
    let mut p = chain(1000);
    p.add_balance(1, 1_000_000);
    assert_eq!(p.do_register_network(1, 101, DYNAMIC_MECHANISM, None), Ok(()));
    // A TAO reserve that would overflow.
    assert_eq!(p.sim_swap_tao_for_alpha(1, u64::MAX), None);
    assert_eq!(p.swap_tao_for_alpha(1, u64::MAX), None);
    assert_eq!(p.sim_swap_alpha_for_tao(1, u64::MAX), None);
    assert_eq!(p.swap_alpha_for_tao(1, u64::MAX), None);
    assert_eq!(p.get_tao_in_pool(1), 1000);
    // A subnet that is not dynamic, and the root subnet.
    p.init_new_network(5, 360);
    assert_eq!(p.sim_swap_tao_for_alpha(5, 10), None);
    assert_eq!(p.swap_tao_for_alpha(5, 10), None);
    assert_eq!(p.sim_swap_alpha_for_tao(0, 10), None);
    assert_eq!(p.swap_alpha_for_tao(0, 10), None);
}

#[test]
fn moving_price_moves_halfway_after_one_half_life() {
    let mut p = chain(1000);
    p.add_balance(1, 1_000_000);
    assert_eq!(p.do_register_network(1, 101, DYNAMIC_MECHANISM, None), Ok(()));
    assert_eq!(p.swap_tao_for_alpha(1, 1000), Some(500));
    let halving = p.get_ema_price_halving_blocks(1);
    assert_eq!(halving, 201_600);
    p.set_block_number(halving);
    p.update_moving_price(1);
    assert_eq!(p.get_moving_alpha_price(1).bits, FRAC_SCALE + 3 * FRAC_SCALE / 2);
    assert_eq!(AlphaPrecompile::get_moving_alpha_price(&p, 1), 2);
    // No block has passed since the last update: the moving price stays.
    p.update_moving_price(1);
    assert_eq!(p.get_moving_alpha_price(1).bits, FRAC_SCALE + 3 * FRAC_SCALE / 2);
}

#[test]
fn emission_starts_once() {
    let mut p = chain(1);
    p.set_block_number(50);
    assert_eq!(p.do_register_network(1, 101, DYNAMIC_MECHANISM, None), Ok(()));
    assert!(!p.is_valid_subnet_for_emission(1));
    assert_eq!(p.do_start_call(1, 1), Ok(()));
    assert_eq!(p.get_first_emission_block(1), Some(51));
    assert!(p.is_valid_subnet_for_emission(1));
    p.set_block_number(60);
    assert_eq!(p.do_start_call(1, 1), Err(Error::EmissionAlreadySet));
    assert_eq!(p.get_first_emission_block(1), Some(51));
}

#[test]
fn start_call_errors() {
    let mut p = chain(1);
    p.set_start_call_delay(10);
    p.set_block_number(50);
    assert_eq!(p.do_register_network(1, 101, DYNAMIC_MECHANISM, None), Ok(()));
    assert_eq!(p.do_start_call(1, 2), Err(Error::SubnetNotFound));
    assert_eq!(p.do_start_call(2, 1), Err(Error::NotSubnetOwner));
    p.set_block_number(59);
    assert_eq!(p.do_start_call(1, 1), Err(Error::MaturationNotReached));
    p.set_block_number(60);
    assert_eq!(p.do_start_call(1, 1), Ok(()));
    assert_eq!(p.get_first_emission_block(1), Some(61));
    assert!(!p.is_valid_subnet_for_emission(5));
}

#[test]
fn invalid_identity_rolls_back_everything() {
    let mut p = chain(1);
    p.set_network_last_lock(500, 0);
    let mut bad = empty_identity();
    bad.subnet_name = vec![b'x'; 300];
    assert!(!is_valid_subnet_identity(&bad));
    assert_eq!(
        p.do_register_network(1, 101, DYNAMIC_MECHANISM, Some(bad)),
        Err(Error::InvalidIdentity)
    );
    assert_eq!(p.get_balance(1), 1000);
    assert_eq!(p.get_num_subnets(), 1);
    assert!(!p.if_subnet_exist(1));
    assert_eq!(p.get_tao_in_pool(1), 0);
    assert_eq!(p.total_issuance, 1_000_000);
    assert_eq!(p.network_last_lock, 500);

    let good = empty_identity();
    assert!(is_valid_subnet_identity(&good));
    assert_eq!(p.do_register_network(1, 101, DYNAMIC_MECHANISM, Some(good)), Ok(()));
    assert_eq!(p.get_balance(1), 500);
}

#[test]
fn registration_errors() {
    let mut p = chain(1);
    p.set_network_last_lock(500, 0);
    assert_eq!(p.do_register_network(1, 101, 2, None), Err(Error::UnsupportedMechanism));
    assert_eq!(
        p.do_register_network(9, 101, DYNAMIC_MECHANISM, None),
        Err(Error::InsufficientBalance)
    );
    p.add_balance(3, 499);
    assert_eq!(
        p.do_register_network(3, 103, DYNAMIC_MECHANISM, None),
        Err(Error::InsufficientBalance)
    );
    p.add_balance(4, 600);
    p.set_frozen(4, true);
    assert_eq!(
        p.do_register_network(4, 104, DYNAMIC_MECHANISM, None),
        Err(Error::LedgerWithdrawalFailed)
    );
    assert_eq!(p.get_balance(4), 600);
    assert_eq!(p.do_register_network(1, 101, DYNAMIC_MECHANISM, None), Ok(()));
    p.add_balance(5, 1_000_000);
    assert_eq!(
        p.do_register_network(5, 101, DYNAMIC_MECHANISM, None),
        Err(Error::IdentityConflict)
    );
    assert_eq!(p.get_num_subnets(), 2);
}

#[test]
fn lock_cost_doubles_then_decays_to_the_floor() {
    assert_eq!(compute_lock_cost(1000, 10, 10, 100, 1, u64::MAX), 2000);
    assert_eq!(compute_lock_cost(1000, 10, 20, 100, 1, u64::MAX), 1900);
    assert_eq!(compute_lock_cost(1000, 10, 1000, 100, 1, u64::MAX), 1);
    assert_eq!(compute_lock_cost(1000, 0, 0, 100, 1, u64::MAX), 1000);
    assert_eq!(compute_lock_cost(1000, 10, 10, 100, 1, 1500), 1500);
    assert_eq!(compute_lock_cost(u64::MAX, 10, 10, 0, 1, u64::MAX), u64::MAX);
    assert!(compute_lock_cost(1000, 10, 30, 100, 1, u64::MAX) <= compute_lock_cost(1000, 10, 20, 100, 1, u64::MAX));
}

#[test]
fn fixed_point_conversions() {
    assert_eq!(Fixed::from_ratio(1, 2).bits, FRAC_SCALE / 2);
    assert_eq!(Fixed::from_ratio(7, 2).saturating_to_u64(), 3);
    assert_eq!(Fixed { bits: u128::MAX }.saturating_to_u64(), u64::MAX);
    assert_eq!(Fixed::one().saturating_to_u64(), 1);
    assert_eq!(Fixed::zero().saturating_to_u64(), 0);
}

#[test]
fn registry_accessors() {
    let mut p = chain(1);
    assert_eq!(Pallet::get_root_netuid(), 0);
    assert!(p.if_subnet_exist(0));
    assert_eq!(p.get_num_subnets(), 1);
    assert_eq!(p.get_all_subnet_netuids(), vec![0]);
    assert!(!p.if_subnet_exist(1));
    assert!(!p.is_registration_allowed(1));
    assert_eq!(p.get_subnet_mechanism(1), 0);
    assert_eq!(p.do_register_network(1, 101, DYNAMIC_MECHANISM, None), Ok(()));
    assert!(p.if_subnet_exist(1));
    assert!(p.is_registration_allowed(1));
    assert_eq!(p.get_subnet_mechanism(1), DYNAMIC_MECHANISM);
    assert_eq!(p.subnets[1].params.max_allowed_uids, 256);
    assert_eq!(p.subnets[1].params.tempo, 360);
    assert_eq!(p.subnets[1].subnetwork_n, 1);
    assert_eq!(p.neurons.len(), 1);
    assert!(p.hotkey_account_exists(101));
    assert!(p.coldkey_owns_hotkey(1, 101));
}

#[test]
fn precompile_queries() {
    let mut p = chain(1000);
    p.add_balance(1, 1_000_000);
    assert_eq!(p.do_register_network(1, 101, DYNAMIC_MECHANISM, None), Ok(()));
    assert_eq!(AlphaPrecompile::get_tao_in_pool(&p, 1), 1000);
    assert_eq!(AlphaPrecompile::get_alpha_in_pool(&p, 1), 1000);
    assert_eq!(AlphaPrecompile::get_alpha_out_pool(&p, 1), 0);
    assert_eq!(AlphaPrecompile::get_alpha_issuance(&p, 1), 1000);
    assert_eq!(AlphaPrecompile::sim_swap_tao_for_alpha(&p, 1, 100), 90);
    assert_eq!(AlphaPrecompile::sim_swap_alpha_for_tao(&p, 1, 90), 82);
    assert_eq!(AlphaPrecompile::sim_swap_tao_for_alpha(&p, 8, 100), 0);
    assert_eq!(AlphaPrecompile::sim_swap_alpha_for_tao(&p, 8, 100), 0);
    assert_eq!(AlphaPrecompile::get_subnet_mechanism(&p, 1), 1);
    assert_eq!(AlphaPrecompile::get_subnet_mechanism(&p, 8), 0);
    assert_eq!(AlphaPrecompile::get_minimum_pool_liquidity(), 10_000_000);
    assert_eq!(AlphaPrecompile::get_root_netuid(), 0);
    assert_eq!(AlphaPrecompile::get_ema_price_halving_blocks(&p, 1), 201_600);
    assert_eq!(AlphaPrecompile::get_subnet_volume(&p, 8), 0);
    assert_eq!(AlphaPrecompile::get_alpha_price(&p, 0), 1);
    assert_eq!(AlphaPrecompile::get_alpha_price(&p, 8), 0);
    assert_eq!(AlphaPrecompile::get_tao_weight(&p), 0);
    p.set_tao_weight(u64::MAX);
    assert_eq!(AlphaPrecompile::get_tao_weight(&p), 1);
}
