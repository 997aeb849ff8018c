use anchor_lang::prelude::Pubkey;
use sol_xr::{
    initialize_handler, Address, Error, Initialize, InitializeToken, Invest, Parameters,
    SolStrategy, GOVERNANCE_AUTHORITY, PLATFORM_ADDRESS,
};
use std::str::FromStr;

fn expected_strategy() -> SolStrategy {
    SolStrategy {
        initial_pool_cap: 1_000,
        individual_address_cap: 100,
        sol_in_treasury: 0,
        sol_from_bond: 0,
        governance_authority: Address::new(GOVERNANCE_AUTHORITY),
        platform_address: Address::new(PLATFORM_ADDRESS),
        allow_new_mint: false,
        platform_mint_fee: 30_000_000,
        max_platform_mint_fee: 500_000_000,
        max_mint_per_wallet: 10_000_000_000,
        min_premium_nav_ratio: 500_000_000,
        nav_growth_rate: 100_000_000,
        minting_rounds: 24,
        next_minting_rounds: 1,
        mint_duration: 21600,
        next_bond_id: 1,
        next_whitelist_id: 1,
    }
}

#[test]
fn authority_constants_are_the_published_keys() {
    let key = Pubkey::from_str("DEvurheakNvpZQAASK5Fug9LbPSMzmT7BmwAMkuiGXsU").unwrap();
    assert_eq!(GOVERNANCE_AUTHORITY, key.to_bytes());
    assert_eq!(PLATFORM_ADDRESS, key.to_bytes());
    assert_eq!(Address::new(GOVERNANCE_AUTHORITY).to_bytes(), key.to_bytes());
}

#[test]
fn addresses_compare_by_their_bytes() {
    let mut bytes = [5u8; 32];
    let a = Address::new(bytes);
    assert!(a == Address::new([5u8; 32]));
    bytes[31] = 6;
    assert!(a != Address::new(bytes));
    bytes[31] = 5;
    bytes[0] = 6;
    assert!(a != Address::new(bytes));
}

#[test]
fn initialize_token_sets_the_protocol_up() {
    let mut ctx = InitializeToken {
        governance_authority: Address::new(GOVERNANCE_AUTHORITY),
        sol_strategy: None,
    };
    assert_eq!(ctx.handler(1_000, 100), Ok(()));
    assert_eq!(ctx.sol_strategy, Some(expected_strategy()));
}

#[test]
fn initialize_token_twice_fails_the_second_time() {
    let mut ctx = InitializeToken {
        governance_authority: Address::new(GOVERNANCE_AUTHORITY),
        sol_strategy: None,
    };
    assert_eq!(ctx.handler(1_000, 100), Ok(()));
    assert_eq!(ctx.handler(2_000, 200), Err(Error::AlreadyInitialized));
    assert_eq!(ctx.sol_strategy, Some(expected_strategy()));
}

#[test]
fn initialize_token_by_a_stranger_is_refused() {
    let mut ctx =
        InitializeToken { governance_authority: Address::new([1u8; 32]), sol_strategy: None };
    assert_eq!(ctx.handler(1_000, 100), Err(Error::UnauthorizedGovernanceAuthority));
    assert_eq!(ctx.sol_strategy, None);
}

#[test]
fn initialize_handler_takes_every_parameter() {
    let parameters = Parameters {
        governance_authority: Address::new([1u8; 32]),
        platform_address: Address::new([2u8; 32]),
        platform_mint_fee: 3,
        max_platform_mint_fee: 4,
        max_mint_per_wallet: 5,
        min_premium_nav_ratio: 6,
        nav_growth_rate: 7,
        minting_rounds: 8,
        mint_duration: 9,
    };
    let mut ctx = Initialize { sol_strategy: None };
    assert_eq!(initialize_handler(&mut ctx, 10, 11, parameters), Ok(()));
    let expected = SolStrategy {
        initial_pool_cap: 10,
        individual_address_cap: 11,
        sol_in_treasury: 0,
        sol_from_bond: 0,
        governance_authority: Address::new([1u8; 32]),
        platform_address: Address::new([2u8; 32]),
        allow_new_mint: false,
        platform_mint_fee: 3,
        max_platform_mint_fee: 4,
        max_mint_per_wallet: 5,
        min_premium_nav_ratio: 6,
        nav_growth_rate: 7,
        minting_rounds: 8,
        next_minting_rounds: 1,
        mint_duration: 9,
        next_bond_id: 1,
        next_whitelist_id: 1,
    };
    assert_eq!(ctx.sol_strategy, Some(expected));
    assert_eq!(initialize_handler(&mut ctx, 0, 0, parameters), Err(Error::AlreadyInitialized));
    assert_eq!(ctx.sol_strategy, Some(expected));
}

#[test]
fn invest_deposits_one_for_one() {
    let mut ctx = Invest { sol_strategy: expected_strategy(), token_balance: 10 };
    assert_eq!(ctx.handler(60), Ok(60));
    assert_eq!(ctx.sol_strategy.sol_in_treasury, 60);
    assert_eq!(ctx.token_balance, 70);
    assert_eq!(ctx.handler(30), Ok(30));
    assert_eq!(ctx.sol_strategy.sol_in_treasury, 90);
    assert_eq!(ctx.token_balance, 100);
}

#[test]
fn invest_beyond_the_address_cap_is_refused() {
    let mut ctx = Invest { sol_strategy: expected_strategy(), token_balance: 10 };
    let before = ctx;
    assert_eq!(ctx.handler(91), Err(Error::ATACapError));
    assert_eq!(ctx, before);
    ctx.token_balance = u64::MAX;
    assert_eq!(ctx.handler(1), Err(Error::ATACapError));
}

#[test]
fn invest_beyond_the_pool_cap_is_refused() {
    let mut ctx = Invest { sol_strategy: expected_strategy(), token_balance: 0 };
    ctx.sol_strategy.sol_in_treasury = 950;
    let before = ctx;
    assert_eq!(ctx.handler(51), Err(Error::InitialSolCapError));
    assert_eq!(ctx.handler(u64::MAX), Err(Error::InitialSolCapError));
    assert_eq!(ctx, before);
    assert_eq!(ctx.handler(50), Ok(50));
    assert_eq!(ctx.sol_strategy.sol_in_treasury, 1_000);
}

#[test]
fn protocol_constants_have_their_values() {
    assert_eq!(sol_xr::SOLXR_DECIMAL, 9);
    assert_eq!(sol_xr::SCALE, 1_000_000_000);
    assert_eq!(sol_xr::PLATFORM_MINT_FEE, 30_000_000);
    assert_eq!(sol_xr::MAX_PLATFORM_MINT_FEE, 500_000_000);
    assert_eq!(sol_xr::MAX_MINT_PER_WALLET, 10_000_000_000);
    assert_eq!(sol_xr::MIN_PREMIUM_NAV_RATIO, 500_000_000);
    assert_eq!(sol_xr::NAV_GROWTH_RATE, 100_000_000);
    assert_eq!(sol_xr::MINTING_ROUNDS, 24);
    assert_eq!(sol_xr::DURATION, 21_600);
    assert_eq!(sol_xr::BOND_PRICE, 1_000_000_000);
    assert_eq!(sol_xr::BOND_MATURITY, 15_552_000);
    assert_eq!(sol_xr::EDITION_MARKER_SIZE, 248);
}

#[test]
fn a_round_opens_on_a_protocol_that_was_just_set_up() {
    let mut setup = InitializeToken {
        governance_authority: Address::new(GOVERNANCE_AUTHORITY),
        sol_strategy: None,
    };
    assert_eq!(setup.handler(10_000_000_000, 5_000_000_000), Ok(()));
    let mut deposit = Invest { sol_strategy: setup.sol_strategy.unwrap(), token_balance: 0 };
    assert_eq!(deposit.handler(2_000_000_000), Ok(2_000_000_000));
    let mut open = sol_xr::OpenMintingRound {
        governance_authority: Address::new(GOVERNANCE_AUTHORITY),
        sol_strategy: deposit.sol_strategy,
        mint_round: sol_xr::MintRound {
            premium: 0,
            max_mint_per_wallet: 0,
            solxr_minted: 0,
            solxr_available: 0,
            start: 0,
        },
        token_supply: 2_000_000_000,
    };
    // NAV 1.0 and a least premium of 50%: 1.4 is refused, 1.6 opens the round.
    assert_eq!(open.handler(1, 1_400_000_000, 10), Err(Error::MarketValueBelowMinPremium));
    assert_eq!(open.handler(1, 1_600_000_000, 10), Ok(()));
    // 0.1 * 2 * 10^9 / (1.6 - 1 - 0.1)
    assert_eq!(open.mint_round.solxr_available, 400_000_000);
    assert_eq!(open.mint_round.max_mint_per_wallet, 10_000_000_000);
}
