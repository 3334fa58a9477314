use lock_cli::address::derive_holding_address;
use lock_cli::address::Address;
use lock_cli::address::DerivationError;
use solana_sdk::pubkey::Pubkey;

fn lock_program() -> Address {
    Address([7u8; 32])
}

fn key(address: &Address) -> Pubkey {
    Pubkey::new_from_array(address.0)
}

#[test]
fn lock_authority_is_the_same_on_repeated_calls() {
    let seed: &[u8] = "lock_cp_authority_seed".as_bytes();
    let first = lock_cli::address::derive(&[seed], &lock_program());
    let second = lock_cli::address::derive(&[seed], &lock_program());
    let third = lock_cli::address::derive(&[seed], &lock_program());
    assert!(first.is_ok());
    assert_eq!(first, second);
    assert_eq!(second, third);
}

#[test]
fn derive_agrees_with_the_chain_sdk() {
    let programs = [[7u8; 32], [0u8; 32], [255u8; 32], [1u8; 32]];
    let mint = [9u8; 32];
    for program in programs.iter() {
        let owner = Address(*program);
        for n in 0u8..40 {
            let tail = [n, n.wrapping_mul(3), 200];
            let seeds: [&[u8]; 3] = [b"locked_liquidity", &mint, &tail];
            let expected = Pubkey::find_program_address(&seeds, &key(&owner));
            let got = lock_cli::address::derive(&seeds, &owner).unwrap();
            assert_eq!(got.0 .0, expected.0.to_bytes());
            assert_eq!(got.1, expected.1);
        }
    }
}

#[test]
fn derive_skips_bumps_that_land_on_the_curve() {
    // Among many seed sets some need more than one attempt: the bump is then below 255.
    let owner = lock_program();
    let mut below_top = 0;
    for n in 0u8..64 {
        let seed = [n];
        let (address, bump) = lock_cli::address::derive(&[&seed], &owner).unwrap();
        let expected = Pubkey::find_program_address(&[&seed], &key(&owner));
        assert_eq!((address.0, bump), (expected.0.to_bytes(), expected.1));
        assert!(bump >= 1);
        if bump < 255 {
            below_top += 1;
        }
    }
    assert!(below_top > 0);
}

#[test]
fn derived_address_is_off_curve_and_reproducible_from_its_bump() {
    let owner = lock_program();
    let (address, bump) = lock_cli::address::derive(&[b"locked_position"], &owner).unwrap();
    assert!(!key(&address).is_on_curve());
    let again =
        Pubkey::create_program_address(&[b"locked_position", &[bump]], &key(&owner)).unwrap();
    assert_eq!(again.to_bytes(), address.0);
    // No higher bump yields a program address.
    let mut higher = 255u8;
    while higher > bump {
        assert!(
            Pubkey::create_program_address(&[b"locked_position", &[higher]], &key(&owner)).is_err()
        );
        higher -= 1;
    }
}

#[test]
fn derive_differs_from_its_inputs() {
    let owner = lock_program();
    let seed = [3u8; 32];
    let (address, _) = lock_cli::address::derive(&[&seed], &owner).unwrap();
    assert_ne!(address.0, seed);
    assert_ne!(address.0, owner.0);
}

#[test]
fn derive_with_no_seeds_uses_the_bump_alone() {
    let owner = lock_program();
    let got = lock_cli::address::derive(&[], &owner).unwrap();
    let expected = Pubkey::find_program_address(&[], &key(&owner));
    assert_eq!((got.0 .0, got.1), (expected.0.to_bytes(), expected.1));
}

#[test]
fn derive_accepts_fifteen_seeds_of_full_length() {
    let owner = lock_program();
    let seed = [5u8; 32];
    let seeds: Vec<&[u8]> = (0..15).map(|_| &seed[..]).collect();
    let got = lock_cli::address::derive(&seeds, &owner).unwrap();
    let expected = Pubkey::find_program_address(&seeds, &key(&owner));
    assert_eq!((got.0 .0, got.1), (expected.0.to_bytes(), expected.1));
}

#[test]
fn derive_rejects_sixteen_seeds() {
    let owner = lock_program();
    let seed = [5u8; 1];
    let seeds: Vec<&[u8]> = (0..16).map(|_| &seed[..]).collect();
    assert_eq!(
        lock_cli::address::derive(&seeds, &owner),
        Err(DerivationError::SeedsOutOfRange)
    );
    assert_eq!(Pubkey::try_find_program_address(&seeds, &key(&owner)), None);
}

#[test]
fn derive_rejects_a_seed_of_thirty_three_bytes() {
    let owner = lock_program();
    let long = [1u8; 33];
    assert_eq!(
        lock_cli::address::derive(&[b"ok", &long], &owner),
        Err(DerivationError::SeedsOutOfRange)
    );
    assert_eq!(
        Pubkey::try_find_program_address(&[b"ok", &long], &key(&owner)),
        None
    );
}

#[test]
fn holding_address_agrees_with_the_associated_token_program() {
    let scheme = Address(spl_associated_token_account::id().to_bytes());
    let token_program = Address(anchor_spl::token::ID.to_bytes());
    let token_2022 = Address(anchor_spl::token_2022::ID.to_bytes());
    for n in 0u8..20 {
        let wallet = Address([n; 32]);
        let mint = Address([n.wrapping_add(100); 32]);
        let classic = derive_holding_address(&wallet, &mint, &token_program, &scheme).unwrap();
        let expected =
            spl_associated_token_account::get_associated_token_address(&key(&wallet), &key(&mint));
        assert_eq!(classic.0, expected.to_bytes());
        let later = derive_holding_address(&wallet, &mint, &token_2022, &scheme).unwrap();
        let expected = spl_associated_token_account::get_associated_token_address_with_program_id(
            &key(&wallet),
            &key(&mint),
            &key(&token_2022),
        );
        assert_eq!(later.0, expected.to_bytes());
        assert_ne!(classic, later);
    }
}

#[test]
fn holding_address_depends_on_the_order_of_owner_and_asset() {
    let scheme = Address(spl_associated_token_account::id().to_bytes());
    let token_program = Address(anchor_spl::token::ID.to_bytes());
    let a = Address([1u8; 32]);
    let b = Address([2u8; 32]);
    let ab = derive_holding_address(&a, &b, &token_program, &scheme).unwrap();
    let ba = derive_holding_address(&b, &a, &token_program, &scheme).unwrap();
    assert_ne!(ab, ba);
    assert_eq!(
        ab,
        derive_holding_address(&a, &b, &token_program, &scheme).unwrap()
    );
}

#[test]
fn addresses_compare_by_their_bytes() {
    let mut bytes = [4u8; 32];
    let a = Address(bytes);
    assert!(a == Address([4u8; 32]));
    bytes[31] = 5;
    assert!(a != Address(bytes));
    bytes[31] = 4;
    bytes[0] = 0;
    assert!(a != Address(bytes));
}

#[test]
fn derive_gives_the_known_address_and_bump() {
    let owner = lock_program();
    assert_eq!(
        lock_cli::address::derive(&[b"lock_cp_authority_seed"], &owner),
        Ok((
            Address([
                9, 128, 175, 181, 131, 126, 2, 255, 47, 51, 202, 150, 155, 185, 74, 209, 215, 89,
                244, 96, 84, 202, 164, 14, 224, 114, 237, 150, 118, 42, 80, 183
            ]),
            255
        ))
    );
    assert_eq!(
        lock_cli::address::derive(&[b"program_authority_seed"], &owner),
        Ok((
            Address([
                220, 136, 39, 196, 10, 33, 116, 128, 185, 5, 19, 63, 54, 56, 201, 175, 24, 32, 165,
                186, 46, 62, 233, 193, 89, 62, 26, 166, 249, 29, 235, 61
            ]),
            255
        ))
    );
    // Seven bumps in a row land on the curve for this seed.
    assert_eq!(lock_cli::address::derive(&[&[1u8]], &owner).unwrap().1, 249);
    assert_eq!(lock_cli::address::derive(&[&[2u8]], &owner).unwrap().1, 250);
}
