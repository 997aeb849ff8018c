use anchor_lang::AnchorSerialize;
use anchor_spl::metadata::mpl_token_metadata::accounts::MasterEdition;
use anchor_spl::metadata::mpl_token_metadata::types::Key;
use sol_xr::edition::{check_sale, edition_marker, master_supply, next_edition};
use sol_xr::{Error, MasterSupply, EDITION_MARKER_SIZE};

fn master_bytes(supply: u64, max_supply: Option<u64>) -> Vec<u8> {
    MasterEdition { key: Key::MasterEditionV2, supply, max_supply }.try_to_vec().unwrap()
}

#[test]
fn master_supply_reads_what_the_registry_wrote() {
    assert_eq!(
        master_supply(&master_bytes(41, Some(100))),
        Some(MasterSupply { supply: 41, max_supply: Some(100) })
    );
    assert_eq!(
        master_supply(&master_bytes(0, None)),
        Some(MasterSupply { supply: 0, max_supply: None })
    );
    assert_eq!(
        master_supply(&master_bytes(u64::MAX, Some(u64::MAX))),
        Some(MasterSupply { supply: u64::MAX, max_supply: Some(u64::MAX) })
    );
}

#[test]
fn master_supply_reads_a_record_written_by_hand() {
    let mut data: Vec<u8> = vec![6];
    data.extend_from_slice(&258u64.to_le_bytes());
    data.push(1);
    data.extend_from_slice(&1_000u64.to_le_bytes());
    assert_eq!(master_supply(&data), Some(MasterSupply { supply: 258, max_supply: Some(1_000) }));
    assert_eq!(data, master_bytes(258, Some(1_000)));
}

#[test]
fn master_supply_ignores_what_follows_the_record() {
    let mut data = master_bytes(3, None);
    data.extend_from_slice(&[0u8; 272]);
    assert_eq!(master_supply(&data), Some(MasterSupply { supply: 3, max_supply: None }));
}

#[test]
fn master_supply_refuses_what_is_no_master_edition() {
    assert_eq!(master_supply(&[]), None);
    assert_eq!(master_supply(&[6, 1, 2, 3]), None);
    // a key that the registry does not know
    let mut data = master_bytes(3, None);
    data[0] = 200;
    assert_eq!(master_supply(&data), None);
    // a limit that is cut short
    let mut data = master_bytes(3, Some(9));
    data.truncate(12);
    assert_eq!(master_supply(&data), None);
}

#[test]
fn marker_is_the_bucket_of_the_number() {
    assert_eq!(EDITION_MARKER_SIZE, 248);
    assert_eq!(edition_marker(0), 0);
    assert_eq!(edition_marker(1), 0);
    assert_eq!(edition_marker(247), 0);
    assert_eq!(edition_marker(248), 1);
    assert_eq!(edition_marker(495), 1);
    assert_eq!(edition_marker(496), 2);
    assert_eq!(edition_marker(u64::MAX), 74_382_032_555_280_450);
}

#[test]
fn next_edition_is_one_more_than_the_supply() {
    assert_eq!(next_edition(Some(MasterSupply { supply: 0, max_supply: None })), Ok(1));
    assert_eq!(next_edition(Some(MasterSupply { supply: 41, max_supply: Some(42) })), Ok(42));
    assert_eq!(
        next_edition(Some(MasterSupply { supply: u64::MAX - 2, max_supply: None })),
        Ok(u64::MAX - 1)
    );
}

#[test]
fn next_edition_stops_at_the_limit_and_at_the_end_of_the_numbers() {
    assert_eq!(
        next_edition(Some(MasterSupply { supply: 42, max_supply: Some(42) })),
        Err(Error::EditionOverflow)
    );
    assert_eq!(
        next_edition(Some(MasterSupply { supply: 43, max_supply: Some(42) })),
        Err(Error::EditionOverflow)
    );
    assert_eq!(
        next_edition(Some(MasterSupply { supply: 0, max_supply: Some(0) })),
        Err(Error::EditionOverflow)
    );
    assert_eq!(
        next_edition(Some(MasterSupply { supply: u64::MAX, max_supply: None })),
        Err(Error::EditionOverflow)
    );
    assert_eq!(
        next_edition(Some(MasterSupply { supply: u64::MAX - 1, max_supply: None })),
        Err(Error::EditionOverflow)
    );
    assert_eq!(next_edition(None), Err(Error::AccountNotMasterEdition));
}

#[test]
fn sale_window_includes_both_ends() {
    assert_eq!(check_sale(9, 10, 20, 0, 1), Some(Error::MintingNotStarted));
    assert_eq!(check_sale(10, 10, 20, 0, 1), None);
    assert_eq!(check_sale(20, 10, 20, 0, 1), None);
    assert_eq!(check_sale(21, 10, 20, 0, 1), Some(Error::MintingEnded));
    assert_eq!(check_sale(15, 10, 20, 1, 1), Some(Error::MaxMintPerWalletReached));
    assert_eq!(check_sale(15, 10, 20, 0, 0), Some(Error::MaxMintPerWalletReached));
    assert_eq!(check_sale(5, 10, 20, 9, 1), Some(Error::MintingNotStarted));
}
