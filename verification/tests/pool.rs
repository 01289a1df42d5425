use token_amm::errors::AmmError;
use token_amm::identity::Identity;
use token_amm::pool::{
    add_liquidity, initialize_pool, remove_liquidity, set_active, swap, update_hook_whitelist, Pool,
    MAX_FEE_RATE, MAX_WHITELIST_LEN,
};

fn pool_id(n: u8) -> Identity {
    Identity::new([n; 32])
}

fn authority() -> Identity {
    pool_id(100)
}

fn new_pool(fee_rate: u64, whitelist: Vec<Identity>) -> Pool {
    initialize_pool(
        false,
        authority(),
        pool_id(101),
        pool_id(102),
        pool_id(103),
        pool_id(104),
        pool_id(105),
        fee_rate,
        whitelist,
    )
    .unwrap()
}

fn whitelist_of(len: u8) -> Vec<Identity> {
    (0..len).map(pool_id).collect()
}

#[test]
fn new_pool_is_active_and_empty() {
    let pool = new_pool(30, vec![pool_id(1), pool_id(2)]);
    assert!(pool.authority == authority());
    assert!(pool.token_a_mint == pool_id(101));
    assert!(pool.token_b_mint == pool_id(102));
    assert!(pool.token_a_vault == pool_id(103));
    assert!(pool.token_b_vault == pool_id(104));
    assert!(pool.lp_token_mint == pool_id(105));
    assert_eq!(pool.fee_rate, 30);
    assert_eq!(pool.lp_token_supply, 0);
    assert_eq!(pool.hook_whitelist.len(), 2);
    assert!(pool.hook_whitelist[0] == pool_id(1));
    assert!(pool.hook_whitelist[1] == pool_id(2));
    assert!(pool.is_active);
    assert!(pool.is_well_formed());
}

#[test]
fn new_pool_takes_the_limits_themselves() {
    let pool = new_pool(MAX_FEE_RATE, whitelist_of(10));
    assert_eq!(pool.fee_rate, 10_000);
    assert_eq!(pool.hook_whitelist.len(), MAX_WHITELIST_LEN);
    assert!(pool.is_well_formed());
    let free = new_pool(0, vec![]);
    assert_eq!(free.fee_rate, 0);
    assert!(free.hook_whitelist.is_empty());
}

#[test]
fn second_pool_for_a_pair_is_refused() {
    let result = initialize_pool(
        true,
        authority(),
        pool_id(101),
        pool_id(102),
        pool_id(103),
        pool_id(104),
        pool_id(105),
        30,
        vec![],
    );
    assert_eq!(result.err(), Some(AmmError::PoolAlreadyInitialized));
}

#[test]
fn new_pool_with_a_fee_above_the_whole_is_refused() {
    let result = initialize_pool(
        false,
        authority(),
        pool_id(101),
        pool_id(102),
        pool_id(103),
        pool_id(104),
        pool_id(105),
        10_001,
        vec![],
    );
    assert_eq!(result.err(), Some(AmmError::InvalidFeeRate));
}

#[test]
fn new_pool_with_eleven_authorizers_is_refused() {
    let result = initialize_pool(
        false,
        authority(),
        pool_id(101),
        pool_id(102),
        pool_id(103),
        pool_id(104),
        pool_id(105),
        30,
        whitelist_of(11),
    );
    assert_eq!(result.err(), Some(AmmError::InvalidCalculation));
}

#[test]
fn new_pool_names_the_fee_before_the_whitelist() {
    let result = initialize_pool(
        false,
        authority(),
        pool_id(101),
        pool_id(102),
        pool_id(103),
        pool_id(104),
        pool_id(105),
        10_001,
        whitelist_of(11),
    );
    assert_eq!(result.err(), Some(AmmError::InvalidFeeRate));
}

#[test]
fn ill_formed_record_is_recognised() {
    let mut pool = new_pool(30, vec![]);
    pool.fee_rate = 10_001;
    assert!(!pool.is_well_formed());
    pool.fee_rate = 30;
    pool.hook_whitelist = whitelist_of(11);
    assert!(!pool.is_well_formed());
}

#[test]
fn whitelist_of_eleven_entries_is_refused() {
    let mut pool = new_pool(30, vec![pool_id(1)]);
    assert_eq!(
        update_hook_whitelist(&mut pool, &authority(), whitelist_of(11)),
        Err(AmmError::InvalidCalculation)
    );
    assert_eq!(pool.hook_whitelist.len(), 1);
    assert!(pool.hook_whitelist[0] == pool_id(1));
}

#[test]
fn whitelist_change_by_a_stranger_is_refused() {
    let mut pool = new_pool(30, vec![pool_id(1)]);
    assert_eq!(
        update_hook_whitelist(&mut pool, &pool_id(7), vec![pool_id(7)]),
        Err(AmmError::Unauthorized)
    );
    assert_eq!(pool.hook_whitelist.len(), 1);
    assert!(pool.hook_whitelist[0] == pool_id(1));
}

#[test]
fn whitelist_change_by_a_stranger_is_refused_whatever_the_length() {
    let mut pool = new_pool(30, vec![pool_id(1)]);
    assert_eq!(
        update_hook_whitelist(&mut pool, &pool_id(7), whitelist_of(11)),
        Err(AmmError::Unauthorized)
    );
}

#[test]
fn whitelist_is_replaced_as_a_whole() {
    let mut pool = new_pool(30, vec![pool_id(1), pool_id(2)]);
    assert_eq!(update_hook_whitelist(&mut pool, &authority(), vec![pool_id(3)]), Ok(()));
    assert_eq!(pool.hook_whitelist.len(), 1);
    assert!(pool.hook_whitelist[0] == pool_id(3));
    assert_eq!(update_hook_whitelist(&mut pool, &authority(), whitelist_of(10)), Ok(()));
    assert_eq!(pool.hook_whitelist.len(), 10);
    assert_eq!(update_hook_whitelist(&mut pool, &authority(), vec![]), Ok(()));
    assert!(pool.hook_whitelist.is_empty());
    assert_eq!(pool.fee_rate, 30);
    assert!(pool.is_active);
}

#[test]
fn only_the_authority_opens_and_closes_the_pool() {
    let mut pool = new_pool(30, vec![]);
    assert_eq!(set_active(&mut pool, &pool_id(7), false), Err(AmmError::Unauthorized));
    assert!(pool.is_active);
    assert_eq!(set_active(&mut pool, &authority(), false), Ok(()));
    assert!(!pool.is_active);
    assert_eq!(set_active(&mut pool, &authority(), true), Ok(()));
    assert!(pool.is_active);
}

#[test]
fn first_deposit_sets_the_supply() {
    let mut pool = new_pool(30, vec![]);
    assert_eq!(add_liquidity(&mut pool, 1_000_000, 1_000_000, 0, 0, 0), Ok(999_000));
    assert_eq!(pool.lp_token_supply, 999_000);
}

#[test]
fn later_deposit_adds_to_the_supply() {
    let mut pool = new_pool(30, vec![]);
    pool.lp_token_supply = 500;
    assert_eq!(add_liquidity(&mut pool, 100, 200, 50, 1000, 1000), Ok(50));
    assert_eq!(pool.lp_token_supply, 550);
}

#[test]
fn deposit_below_the_asked_shares_is_refused() {
    let mut pool = new_pool(30, vec![]);
    pool.lp_token_supply = 500;
    assert_eq!(
        add_liquidity(&mut pool, 100, 200, 51, 1000, 1000),
        Err(AmmError::SlippageExceeded)
    );
    assert_eq!(pool.lp_token_supply, 500);
}

#[test]
fn deposit_with_a_zero_amount_leaves_the_pool_alone() {
    let mut pool = new_pool(30, vec![]);
    pool.lp_token_supply = 500;
    assert_eq!(add_liquidity(&mut pool, 0, 200, 0, 1000, 1000), Err(AmmError::InvalidCalculation));
    assert_eq!(add_liquidity(&mut pool, 100, 0, 0, 1000, 1000), Err(AmmError::InvalidCalculation));
    assert_eq!(pool.lp_token_supply, 500);
}

#[test]
fn deposit_that_would_overflow_the_supply_is_refused() {
    let mut pool = new_pool(30, vec![]);
    pool.lp_token_supply = u64::MAX - 10;
    // side a and b: floor(11 * (MAX - 10) / (MAX - 10)) = 11
    assert_eq!(
        add_liquidity(&mut pool, 11, 11, 0, u64::MAX - 10, u64::MAX - 10),
        Err(AmmError::InvalidCalculation)
    );
    assert_eq!(pool.lp_token_supply, u64::MAX - 10);
    assert_eq!(add_liquidity(&mut pool, 10, 10, 0, u64::MAX - 10, u64::MAX - 10), Ok(10));
    assert_eq!(pool.lp_token_supply, u64::MAX);
}

#[test]
fn closed_pool_refuses_every_operation() {
    let mut pool = new_pool(30, vec![]);
    pool.lp_token_supply = 1000;
    assert_eq!(set_active(&mut pool, &authority(), false), Ok(()));
    assert_eq!(
        add_liquidity(&mut pool, 100, 100, 0, 1000, 1000),
        Err(AmmError::InvalidCalculation)
    );
    assert_eq!(
        remove_liquidity(&mut pool, 10, 0, 0, 1000, 1000),
        Err(AmmError::InvalidCalculation)
    );
    assert_eq!(
        swap(&pool, 10_000, 0, true, 1_000_000, 1_000_000, false, &[]),
        Err(AmmError::InvalidCalculation)
    );
    assert_eq!(pool.lp_token_supply, 1000);
}

#[test]
fn withdrawal_pays_out_and_takes_the_shares_off_the_supply() {
    let mut pool = new_pool(30, vec![]);
    pool.lp_token_supply = 7;
    assert_eq!(remove_liquidity(&mut pool, 3, 428, 21, 1000, 50), Ok((428, 21)));
    assert_eq!(pool.lp_token_supply, 4);
}

#[test]
fn withdrawal_below_a_floor_is_refused() {
    let mut pool = new_pool(30, vec![]);
    pool.lp_token_supply = 7;
    assert_eq!(remove_liquidity(&mut pool, 3, 429, 0, 1000, 50), Err(AmmError::SlippageExceeded));
    assert_eq!(remove_liquidity(&mut pool, 3, 0, 22, 1000, 50), Err(AmmError::SlippageExceeded));
    assert_eq!(pool.lp_token_supply, 7);
}

#[test]
fn withdrawal_of_more_than_the_supply_is_refused() {
    let mut pool = new_pool(30, vec![]);
    pool.lp_token_supply = 7;
    assert_eq!(remove_liquidity(&mut pool, 8, 0, 0, 1000, 50), Err(AmmError::InsufficientBalance));
    assert_eq!(
        remove_liquidity(&mut pool, u64::MAX, 0, 0, 1000, 50),
        Err(AmmError::InsufficientBalance)
    );
    assert_eq!(remove_liquidity(&mut pool, 0, 0, 0, 1000, 50), Err(AmmError::InvalidCalculation));
    assert_eq!(pool.lp_token_supply, 7);
}

#[test]
fn withdrawal_of_part_leaves_something_in_both_vaults() {
    let mut pool = new_pool(30, vec![]);
    pool.lp_token_supply = 1_000;
    let (out_a, out_b) = remove_liquidity(&mut pool, 999, 0, 0, 5, 1).unwrap();
    assert!(out_a < 5);
    assert!(out_b < 1);
    assert_eq!(pool.lp_token_supply, 1);
}

#[test]
fn deposit_and_withdrawal_in_turn_return_no_more_than_was_put_in() {
    let mut pool = new_pool(30, vec![]);
    let first = add_liquidity(&mut pool, 1_000_000, 4_000_000, 0, 0, 0).unwrap();
    assert_eq!(first, 2_000_000 - 1000);
    let (mut reserve_a, mut reserve_b) = (1_000_000u64, 4_000_000u64);
    let minted = add_liquidity(&mut pool, 333, 1_000, 0, reserve_a, reserve_b).unwrap();
    reserve_a += 333;
    reserve_b += 1_000;
    let (back_a, back_b) = remove_liquidity(&mut pool, minted, 0, 0, reserve_a, reserve_b).unwrap();
    assert!(back_a <= 333);
    assert!(back_b <= 1_000);
    assert_eq!(pool.lp_token_supply, first);
}

#[test]
fn swap_prices_by_direction() {
    let pool = new_pool(30, vec![]);
    assert_eq!(swap(&pool, 10_000, 0, true, 1_000_000, 1_000_000, false, &[]), Ok(9871));
    // a to b: floor(5000 * 996 / (2000 + 996)) = 1662
    assert_eq!(swap(&pool, 999, 0, true, 2000, 5000, false, &[]), Ok(1662));
    // b to a: floor(2000 * 996 / (5000 + 996)) = 332
    assert_eq!(swap(&pool, 999, 0, false, 2000, 5000, false, &[]), Ok(332));
}

#[test]
fn swap_below_the_asked_output_is_refused() {
    let pool = new_pool(30, vec![]);
    assert_eq!(swap(&pool, 10_000, 9871, true, 1_000_000, 1_000_000, false, &[]), Ok(9871));
    assert_eq!(
        swap(&pool, 10_000, 9872, true, 1_000_000, 1_000_000, false, &[]),
        Err(AmmError::SlippageExceeded)
    );
}

#[test]
fn swap_against_an_empty_vault_is_refused_first() {
    let pool = new_pool(30, vec![]);
    assert_eq!(
        swap(&pool, 0, 0, true, 0, 1_000_000, false, &[]),
        Err(AmmError::InsufficientLiquidity)
    );
    assert_eq!(
        swap(&pool, 10, 0, false, 1_000_000, 0, false, &[]),
        Err(AmmError::InsufficientLiquidity)
    );
    assert_eq!(
        swap(&pool, 0, 0, true, 1_000_000, 1_000_000, false, &[]),
        Err(AmmError::InvalidCalculation)
    );
}

#[test]
fn swap_of_a_hooked_asset_needs_a_trusted_authorizer() {
    let pool = new_pool(30, vec![pool_id(1), pool_id(2)]);
    assert_eq!(
        swap(&pool, 10_000, 0, true, 1_000_000, 1_000_000, true, &[]),
        Err(AmmError::HookNotWhitelisted)
    );
    assert_eq!(
        swap(&pool, 10_000, 0, true, 1_000_000, 1_000_000, true, &[pool_id(9)]),
        Err(AmmError::HookNotWhitelisted)
    );
    assert_eq!(
        swap(&pool, 10_000, 0, true, 1_000_000, 1_000_000, true, &[pool_id(9), pool_id(2)]),
        Ok(9871)
    );
    assert_eq!(swap(&pool, 10_000, 0, true, 1_000_000, 1_000_000, false, &[pool_id(9)]), Ok(9871));
}

#[test]
fn swap_names_slippage_before_the_whitelist() {
    let pool = new_pool(30, vec![pool_id(1)]);
    assert_eq!(
        swap(&pool, 10_000, 9872, true, 1_000_000, 1_000_000, true, &[]),
        Err(AmmError::SlippageExceeded)
    );
}

#[test]
fn swap_with_a_broken_fee_is_refused() {
    let mut pool = new_pool(30, vec![]);
    pool.fee_rate = 10_001;
    assert_eq!(
        swap(&pool, 10_000, 0, true, 1_000_000, 1_000_000, false, &[]),
        Err(AmmError::InvalidFeeRate)
    );
}
