use solami_sniffer::instruction::{ASSOCIATED_TOKEN_PROGRAM, COMPUTE_BUDGET_PROGRAM, SYSTEM_PROGRAM};
use solami_sniffer::pubkey::Pubkey;
use solami_sniffer::pumpfun::{
    get_bonding_curve_pda, get_bonding_curve_v2_pda, get_creator_vault_pda, get_global_pda,
    get_global_vol_acc, get_metadata_pda, get_user_vol_acc, try_get_ata, try_get_global_pda,
    EVENT_AUTHORITY, FEE_CONFIG, FEE_PROGRAM, FEE_RECIPIENT, MAYHEM_FEE_RECIPIENT,
    METAPLEX_METADATA_PROGRAM, PUMPFUN, TOKEN_PROGRAM_2022,
};
use solami_sniffer::send_transaction::{
    solami_tip_accounts, SOLAMI_TIP_ACCOUNT_0, SOLAMI_TIP_ACCOUNT_1, SOLAMI_TIP_ACCOUNT_2,
};

fn sdk(bytes: [u8; 32]) -> solana_sdk::pubkey::Pubkey {
    solana_sdk::pubkey::Pubkey::new_from_array(bytes)
}

fn expected_pda(seeds: &[&[u8]], program: [u8; 32]) -> [u8; 32] {
    solana_sdk::pubkey::Pubkey::find_program_address(seeds, &sdk(program)).0.to_bytes()
}

fn key(byte: u8) -> Pubkey {
    let mut b = [0u8; 32];
    for (i, x) in b.iter_mut().enumerate() {
        *x = byte.wrapping_add(i as u8);
    }
    Pubkey::new_from_array(b)
}

#[test]
fn program_constants_spell_their_addresses() {
    let cases: [([u8; 32], &str); 12] = [
        (METAPLEX_METADATA_PROGRAM, "metaqbxxUerdq28cj1RbAWkYQm3ybzjb6a8bt518x1s"),
        (PUMPFUN, "6EF8rrecthR5Dkzon8Nwu78hRvfCKubJ14M5uBEwF6P"),
        (EVENT_AUTHORITY, "Ce6TQqeHC9p8KetsN6JsjHK7UTZk7nasjjnr7XxXp9F1"),
        (FEE_RECIPIENT, "62qc2CNXwrYqQScmEdiZFFAnJR262PxWEuNQtxfafNgV"),
        (FEE_PROGRAM, "pfeeUxB6jkeY1Hxd7CsFCAjcbHA9rWtchMGdZ6VojVZ"),
        (FEE_CONFIG, "8Wf5TiAheLUqBrKXeYg2JtAFFMWtKdG2BSFgqUcPVwTt"),
        (MAYHEM_FEE_RECIPIENT, "GesfTA3X2arioaHp8bbKdjG9vJtskViWACZoYvxp4twS"),
        (SYSTEM_PROGRAM, "11111111111111111111111111111111"),
        (TOKEN_PROGRAM_2022, "TokenzQdBNbLqP5VEhdkAS6EPFLC1PHnBqCXEpPxuEb"),
        (COMPUTE_BUDGET_PROGRAM, "ComputeBudget111111111111111111111111111111"),
        (ASSOCIATED_TOKEN_PROGRAM, "ATokenGPvbdGVxr1b2hvZbsiqW5xWH25efTNsLJA8knL"),
        (SOLAMI_TIP_ACCOUNT_0, "9N1JafTRq7jk8G3GLCV6yDjoiRLDj4mvmtGpcHTMKami"),
    ];
    for (bytes, text) in cases.iter() {
        assert_eq!(Pubkey::new_from_array(*bytes).to_string(), *text);
    }
    assert_eq!(Pubkey::new_from_array(SOLAMI_TIP_ACCOUNT_1).to_string(), "ENKoQ3gq2kbqgmvuZVih8CHBmYzZHpxs27ZRKreNxami");
    assert_eq!(Pubkey::new_from_array(SOLAMI_TIP_ACCOUNT_2).to_string(), "6kXV3jz3Zey4qqo5fL6EyG1tPqnwRZ9PxUDyxYX6iami");
}

#[test]
fn base58_text_parses_back() {
    let k = key(7);
    let text = k.to_string();
    let back = Pubkey::from_base58(&text).expect("parses");
    assert!(back.same(&k));
    assert!(Pubkey::from_base58("not base58 0OIl").is_none());
    assert!(Pubkey::from_base58("").is_none());
    let zero = Pubkey::from_base58("11111111111111111111111111111111").unwrap();
    assert!(zero.is_default());
}

#[test]
fn pubkey_equality_and_default() {
    assert!(Pubkey::default().is_default());
    assert!(!key(1).is_default());
    assert!(key(3) == key(3));
    assert!(key(3) != key(4));
}

#[test]
fn pdas_match_the_sdk() {
    let mint = key(11);
    let user = key(42);
    assert_eq!(get_global_pda().bytes, expected_pda(&[b"global"], PUMPFUN));
    assert_eq!(try_get_global_pda().unwrap().bytes, expected_pda(&[b"global"], PUMPFUN));
    assert_eq!(get_bonding_curve_pda(&mint).unwrap().bytes, expected_pda(&[b"bonding-curve", &mint.bytes], PUMPFUN));
    assert_eq!(get_bonding_curve_v2_pda(&mint).unwrap().bytes, expected_pda(&[b"bonding-curve-v2", &mint.bytes], PUMPFUN));
    assert_eq!(get_creator_vault_pda(&user).unwrap().bytes, expected_pda(&[b"creator-vault", &user.bytes], PUMPFUN));
    assert_eq!(get_user_vol_acc(&user).unwrap().bytes, expected_pda(&[b"user_volume_accumulator", &user.bytes], PUMPFUN));
    assert_eq!(get_global_vol_acc().unwrap().bytes, expected_pda(&[b"global_volume_accumulator"], PUMPFUN));
    assert_eq!(
        get_metadata_pda(&mint).bytes,
        expected_pda(&[b"metadata", &METAPLEX_METADATA_PROGRAM, &mint.bytes], METAPLEX_METADATA_PROGRAM)
    );
}

#[test]
fn associated_token_address_matches_the_spl_crate() {
    let owner = key(5);
    let mint = key(9);
    let got = try_get_ata(&owner, &mint, &Pubkey::new_from_array(TOKEN_PROGRAM_2022)).unwrap();
    let want = spl_associated_token_account::get_associated_token_address_with_program_id(
        &sdk(owner.bytes),
        &sdk(mint.bytes),
        &sdk(TOKEN_PROGRAM_2022),
    );
    assert_eq!(got.bytes, want.to_bytes());
    assert_ne!(got.bytes, owner.bytes);
}

#[test]
fn tip_accounts_are_listed_in_order() {
    let accounts = solami_tip_accounts();
    assert_eq!(accounts.len(), 3);
    assert_eq!(accounts[0].bytes, SOLAMI_TIP_ACCOUNT_0);
    assert_eq!(accounts[1].bytes, SOLAMI_TIP_ACCOUNT_1);
    assert_eq!(accounts[2].bytes, SOLAMI_TIP_ACCOUNT_2);
}
