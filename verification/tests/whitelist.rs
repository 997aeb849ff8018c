use sol_xr::{
    Address, BuyWhitelist, ConvertWhitelist, EditionPurchase, Error, MasterRegistration,
    MasterSupply, SellWhitelist, SolStrategy, Whitelist, WhitelistNFTRecord, WhitelistRecord,
};

fn governance() -> Address {
    Address::new([7u8; 32])
}

fn buyer() -> Address {
    Address::new([3u8; 32])
}

fn collection() -> Address {
    Address::new([4u8; 32])
}

fn strategy() -> SolStrategy {
    SolStrategy {
        initial_pool_cap: 100_000_000_000,
        individual_address_cap: 10_000_000_000,
        sol_in_treasury: 5_000_000_000,
        sol_from_bond: 3_000_000_000,
        governance_authority: governance(),
        platform_address: Address::new([9u8; 32]),
        allow_new_mint: false,
        platform_mint_fee: 30_000_000,
        max_platform_mint_fee: 500_000_000,
        max_mint_per_wallet: 10_000_000_000,
        min_premium_nav_ratio: 500_000_000,
        nav_growth_rate: 100_000_000,
        minting_rounds: 24,
        next_minting_rounds: 1,
        mint_duration: 21600,
        next_bond_id: 1,
        next_whitelist_id: 1,
    }
}

fn whitelist() -> Whitelist {
    Whitelist {
        maturity: 5_000,
        expiration: 6_000,
        price: 250_000_000,
        max_mint_per_wallet: 3,
        start_time: 100,
        end_time: 200,
        next_edition_number: 1,
        next_edition_marker: 0,
    }
}

fn blank_whitelist() -> Whitelist {
    Whitelist {
        maturity: 0,
        expiration: 0,
        price: 0,
        max_mint_per_wallet: 0,
        start_time: 0,
        end_time: 0,
        next_edition_number: 0,
        next_edition_marker: 0,
    }
}

fn buying() -> BuyWhitelist {
    BuyWhitelist {
        buyer: buyer(),
        collection: collection(),
        sol_strategy: strategy(),
        whitelist: whitelist(),
        whitelist_record: WhitelistRecord {
            collection: Address::new([0u8; 32]),
            user: Address::new([0u8; 32]),
            minted: 0,
        },
    }
}

fn master_bytes(supply: u64, max_supply: Option<u64>) -> Vec<u8> {
    let mut data: Vec<u8> = vec![6];
    data.extend_from_slice(&supply.to_le_bytes());
    match max_supply {
        Some(max) => {
            data.push(1);
            data.extend_from_slice(&max.to_le_bytes());
        }
        None => data.push(0),
    }
    data
}

fn converting() -> ConvertWhitelist {
    ConvertWhitelist {
        whitelist: whitelist(),
        whitelist_edition_record: WhitelistNFTRecord { converted: false },
        unit_balance: 1,
    }
}

#[test]
fn sell_whitelist_creates_the_offering() {
    let mut ctx = SellWhitelist {
        governance_authority: governance(),
        sol_strategy: strategy(),
        whitelist: blank_whitelist(),
    };
    let registration = ctx
        .handler(
            "Pass".to_string(),
            "WLXR".to_string(),
            "https://example.org/pass.json".to_string(),
            250_000_000,
            5_000,
            6_000,
            3,
            100,
            200,
        )
        .unwrap();
    assert_eq!(
        registration,
        MasterRegistration {
            name: "Pass".to_string(),
            symbol: "WLXR".to_string(),
            uri: "https://example.org/pass.json".to_string(),
            max_supply: None,
        }
    );
    assert_eq!(ctx.whitelist, whitelist());
    let mut expected = strategy();
    expected.next_whitelist_id = 2;
    assert_eq!(ctx.sol_strategy, expected);
}

#[test]
fn sell_whitelist_by_a_stranger_is_refused() {
    let mut ctx = SellWhitelist {
        governance_authority: buyer(),
        sol_strategy: strategy(),
        whitelist: blank_whitelist(),
    };
    let before = ctx;
    let result = ctx.handler(String::new(), String::new(), String::new(), 1, 2, 3, 4, 5, 6);
    assert_eq!(result, Err(Error::UnauthorizedGovernanceAuthority));
    assert_eq!(ctx, before);
}

#[test]
fn sell_whitelist_at_the_end_of_the_series_is_refused() {
    let mut sol_strategy = strategy();
    sol_strategy.next_whitelist_id = u64::MAX;
    let mut ctx = SellWhitelist {
        governance_authority: governance(),
        sol_strategy,
        whitelist: blank_whitelist(),
    };
    let result = ctx.handler(String::new(), String::new(), String::new(), 1, 2, 3, 4, 5, 6);
    assert_eq!(result, Err(Error::ArithmeticOverflow));
    assert_eq!(ctx.whitelist, blank_whitelist());
}

#[test]
fn buy_whitelist_mints_the_next_edition() {
    let mut ctx = buying();
    let purchase = ctx.handler(150, &master_bytes(0, None)).unwrap();
    assert_eq!(purchase, EditionPurchase { price: 250_000_000, edition: 1 });
    assert_eq!(ctx.whitelist.next_edition_number, 2);
    assert_eq!(ctx.whitelist.next_edition_marker, 0);
    assert_eq!(
        ctx.whitelist_record,
        WhitelistRecord { collection: collection(), user: buyer(), minted: 1 }
    );
    assert_eq!(ctx.sol_strategy.sol_in_treasury, 5_250_000_000);
    assert_eq!(ctx.sol_strategy.sol_from_bond, 3_000_000_000);
}

#[test]
fn buy_whitelist_counts_every_purchase_of_a_wallet() {
    let mut ctx = buying();
    assert!(ctx.handler(150, &master_bytes(0, None)).is_ok());
    assert!(ctx.handler(151, &master_bytes(1, None)).is_ok());
    assert_eq!(ctx.handler(152, &master_bytes(2, None)).unwrap().edition, 3);
    assert_eq!(ctx.whitelist_record.minted, 3);
    assert_eq!(ctx.whitelist.next_edition_number, 4);
    assert_eq!(ctx.sol_strategy.sol_in_treasury, 5_750_000_000);
    let before = ctx;
    assert_eq!(ctx.handler(153, &master_bytes(3, None)), Err(Error::MaxMintPerWalletReached));
    assert_eq!(ctx, before);
}

#[test]
fn buy_whitelist_moves_the_marker_at_the_bucket_size() {
    let mut ctx = buying();
    assert_eq!(ctx.handler(150, &master_bytes(246, None)).unwrap().edition, 247);
    assert_eq!(ctx.whitelist.next_edition_number, 248);
    assert_eq!(ctx.whitelist.next_edition_marker, 1);
    let mut ctx = buying();
    assert_eq!(ctx.handler(150, &master_bytes(245, None)).unwrap().edition, 246);
    assert_eq!(ctx.whitelist.next_edition_number, 247);
    assert_eq!(ctx.whitelist.next_edition_marker, 0);
}

#[test]
fn buy_whitelist_given_the_master_state() {
    let mut ctx = buying();
    let purchase =
        ctx.buy_edition(150, Some(MasterSupply { supply: 9, max_supply: Some(10) })).unwrap();
    assert_eq!(purchase, EditionPurchase { price: 250_000_000, edition: 10 });
    let before = ctx;
    assert_eq!(
        ctx.buy_edition(150, Some(MasterSupply { supply: 10, max_supply: Some(10) })),
        Err(Error::EditionOverflow)
    );
    assert_eq!(ctx.buy_edition(150, None), Err(Error::AccountNotMasterEdition));
    assert_eq!(ctx, before);
}

#[test]
fn buy_whitelist_outside_the_sale_is_refused() {
    let mut ctx = buying();
    let before = ctx;
    assert_eq!(ctx.handler(99, &master_bytes(0, None)), Err(Error::MintingNotStarted));
    assert_eq!(ctx.handler(201, &master_bytes(0, None)), Err(Error::MintingEnded));
    // the window is tested before the master record
    assert_eq!(ctx.handler(99, &[]), Err(Error::MintingNotStarted));
    assert_eq!(ctx, before);
}

#[test]
fn buy_whitelist_with_a_record_that_is_no_master_is_refused() {
    let mut ctx = buying();
    let before = ctx;
    assert_eq!(ctx.handler(150, &[]), Err(Error::AccountNotMasterEdition));
    assert_eq!(ctx.handler(150, &[6, 0, 0]), Err(Error::AccountNotMasterEdition));
    assert_eq!(ctx, before);
}

#[test]
fn buy_whitelist_at_the_end_of_the_numbers_is_refused() {
    let mut ctx = buying();
    let before = ctx;
    assert_eq!(ctx.handler(150, &master_bytes(u64::MAX, None)), Err(Error::EditionOverflow));
    assert_eq!(ctx.handler(150, &master_bytes(u64::MAX - 1, None)), Err(Error::EditionOverflow));
    assert_eq!(ctx, before);
    assert_eq!(ctx.handler(150, &master_bytes(u64::MAX - 2, None)).unwrap().edition, u64::MAX - 1);
    assert_eq!(ctx.whitelist.next_edition_number, u64::MAX);
}

#[test]
fn buy_whitelist_beyond_the_range_of_the_treasury_is_refused() {
    let mut ctx = buying();
    ctx.sol_strategy.sol_in_treasury = u64::MAX - 249_999_999;
    let before = ctx;
    assert_eq!(ctx.handler(150, &master_bytes(0, None)), Err(Error::ArithmeticOverflow));
    assert_eq!(ctx, before);
}

#[test]
fn convert_whitelist_mints_the_price() {
    let mut ctx = converting();
    assert_eq!(ctx.handler(5_000), Ok(250_000_000));
    assert!(ctx.whitelist_edition_record.converted);
    assert_eq!(ctx.unit_balance, 1);
    assert_eq!(ctx.whitelist, whitelist());
    let mut ctx = converting();
    assert_eq!(ctx.handler(6_000), Ok(250_000_000));
}

#[test]
fn convert_whitelist_twice_fails_the_second_time() {
    let mut ctx = converting();
    assert_eq!(ctx.handler(5_500), Ok(250_000_000));
    let after_first = ctx;
    assert_eq!(ctx.handler(5_501), Err(Error::WhitelistClaimed));
    assert_eq!(ctx, after_first);
    // also outside the window the pass counts as claimed
    assert_eq!(ctx.handler(7_000), Err(Error::WhitelistClaimed));
}

#[test]
fn convert_whitelist_outside_the_window_is_refused() {
    let mut ctx = converting();
    let before = ctx;
    assert_eq!(ctx.handler(4_999), Err(Error::WhitelistNotMatured));
    assert_eq!(ctx.handler(6_001), Err(Error::WhitelistExpired));
    assert_eq!(ctx, before);
}

#[test]
fn convert_whitelist_without_the_unit_is_refused() {
    let mut ctx = converting();
    ctx.unit_balance = 0;
    assert_eq!(ctx.handler(5_000), Err(Error::InvalidTokenAmount));
    ctx.whitelist_edition_record.converted = true;
    assert_eq!(ctx.handler(5_000), Err(Error::InvalidTokenAmount));
}
