use solami_sniffer::curve::BondingCurveAccount;
use solami_sniffer::instruction::{COMPUTE_BUDGET_PROGRAM, SYSTEM_PROGRAM};
use solami_sniffer::pubkey::Pubkey;
use solami_sniffer::pumpfun::{
    token_program_and_fee, try_build_buy_ix, EVENT_AUTHORITY, FEE_CONFIG, FEE_PROGRAM, try_build_sell_ix, Buy, PumpFunError, Sell,
    BUY_DISCRIMINATOR, FEE_RECIPIENT, MAYHEM_FEE_RECIPIENT, PUMPFUN, SELL_DISCRIMINATOR,
    TOKEN_PROGRAM_2022,
};
use solami_sniffer::send_transaction::{build_tip_ix, solami_tip_accounts};
use solami_sniffer::trader::{
    buy_plan_ok, plan_buy, plan_sell, sell_plan_ok, try_buy_instructions, try_sell_instructions,
    TradeError,
};

fn key(byte: u8) -> Pubkey {
    let mut b = [0u8; 32];
    for (i, x) in b.iter_mut().enumerate() {
        *x = byte.wrapping_add(i as u8);
    }
    Pubkey::new_from_array(b)
}

fn curve_bytes(vtr: u64, vsr: u64, rtr: u64, complete: bool, creator: [u8; 32], mayhem: bool) -> Vec<u8> {
    let mut d = Vec::new();
    d.extend_from_slice(&6966180631402821399u64.to_le_bytes());
    d.extend_from_slice(&vtr.to_le_bytes());
    d.extend_from_slice(&vsr.to_le_bytes());
    d.extend_from_slice(&rtr.to_le_bytes());
    d.extend_from_slice(&0u64.to_le_bytes());
    d.extend_from_slice(&1_000_000_000_000_000u64.to_le_bytes());
    d.push(complete as u8);
    d.extend_from_slice(&creator);
    d.push(mayhem as u8);
    d.push(0);
    d
}

fn launch_curve() -> BondingCurveAccount {
    let data = curve_bytes(1_073_000_000_000_000, 30_000_000_000, 793_100_000_000_000, false, key(200).bytes, false);
    BondingCurveAccount::deserialize(&data).expect("valid curve")
}

#[test]
fn curve_reads_its_layout() {
    let mut data = curve_bytes(1_073_000_000_000_000, 30_000_000_000, 793_100_000_000_000, false, key(200).bytes, true);
    data.extend_from_slice(&[9, 9, 9]);
    let c = BondingCurveAccount::deserialize(&data).unwrap();
    assert_eq!(c.discriminator, 6966180631402821399);
    assert_eq!(c.virtual_token_reserves, 1_073_000_000_000_000);
    assert_eq!(c.virtual_sol_reserves, 30_000_000_000);
    assert_eq!(c.real_token_reserves, 793_100_000_000_000);
    assert_eq!(c.real_sol_reserves, 0);
    assert_eq!(c.token_total_supply, 1_000_000_000_000_000);
    assert!(!c.complete);
    assert_eq!(c.creator.bytes, key(200).bytes);
    assert!(c.is_mayhem_mode);
    assert!(!c.is_cashback_coin);
}

#[test]
fn curve_rejects_short_data_and_bad_flags() {
    let data = curve_bytes(1, 1, 1, false, [0; 32], false);
    assert!(matches!(BondingCurveAccount::deserialize(&data[..82]), Err(PumpFunError::Deserialize(_))));
    let mut bad = data.clone();
    bad[48] = 2;
    assert!(matches!(BondingCurveAccount::deserialize(&bad), Err(PumpFunError::Deserialize(_))));
    let mut bad2 = data;
    bad2[82] = 7;
    assert!(matches!(BondingCurveAccount::deserialize(&bad2), Err(PumpFunError::Deserialize(_))));
}

#[test]
fn buy_quote_on_a_fresh_curve() {
    let c = launch_curve();
    assert_eq!(c.get_buy_token_amount_from_sol_amount(1_000_000_000), 34_199_203_154_141);
    assert_eq!(c.get_buy_token_amount_from_sol_amount(0), 0);
    let mut no_creator = c;
    no_creator.creator = Pubkey::default();
    assert_eq!(no_creator.get_buy_token_amount_from_sol_amount(1_000_000_000), 34_297_586_679_651);
}

#[test]
fn buy_quote_is_capped_by_real_reserves() {
    let mut c = launch_curve();
    c.real_token_reserves = 1_000;
    assert_eq!(c.get_buy_token_amount_from_sol_amount(1_000_000_000), 1_000);
    c.virtual_token_reserves = 0;
    assert_eq!(c.get_buy_token_amount_from_sol_amount(1_000_000_000), 0);
}

#[test]
fn sell_price_after_fees() {
    let c = launch_curve();
    assert_eq!(c.get_sell_price(34_199_203_154_141).unwrap(), 915_057_913);
    assert_eq!(c.get_sell_price(1_000_000_000_000).unwrap(), 27_583_798);
    assert_eq!(c.get_sell_price(0).unwrap(), 0);
    let mut done = c;
    done.complete = true;
    assert!(matches!(done.get_sell_price(5), Err(PumpFunError::CurveComplete)));
}

#[test]
fn sell_price_grows_with_amount_and_stays_below_reserves() {
    let c = launch_curve();
    let mut last = 0u64;
    for amount in [1u64, 10, 1_000, 1_000_000, 1_000_000_000, 1_000_000_000_000, u64::MAX] {
        let p = c.get_sell_price(amount).unwrap();
        assert!(p >= last);
        assert!(p <= c.virtual_sol_reserves);
        last = p;
    }
}

#[test]
fn buy_plan_applies_slippage() {
    let c = launch_curve();
    assert!(buy_plan_ok(&c, 1_000_000_000, 500));
    let b = plan_buy(&c, 1_000_000_000, 500).unwrap();
    assert_eq!(b.amount, 32_489_242_996_434);
    assert_eq!(b.max_sol_cost, 1_050_000_000);
    assert!(b.amount <= c.get_buy_token_amount_from_sol_amount(1_000_000_000));
    let zero = plan_buy(&c, 0, 500);
    assert!(matches!(zero, Err(TradeError::ZeroTokens)));
}

#[test]
fn buy_plan_checks_its_arithmetic() {
    let c = launch_curve();
    assert!(!buy_plan_ok(&c, u64::MAX, 10_000));
    let mut empty = c;
    empty.virtual_sol_reserves = 0;
    assert!(!buy_plan_ok(&empty, 1, 0));
    assert!(buy_plan_ok(&empty, 0, 0));
}

#[test]
fn sell_plan_applies_slippage() {
    let c = launch_curve();
    assert!(sell_plan_ok(&c, 1_000_000_000_000, 500));
    let s = plan_sell(&c, 1_000_000_000_000, 500).unwrap();
    assert_eq!(s.amount, 1_000_000_000_000);
    assert_eq!(s.min_sol_output, 26_204_609);
    let mut done = c;
    done.complete = true;
    assert!(sell_plan_ok(&done, 1, u64::MAX));
    assert!(matches!(plan_sell(&done, 1, 500), Err(PumpFunError::CurveComplete)));
}

#[test]
fn instruction_data_layout() {
    let b = Buy { amount: 0x0102030405060708, max_sol_cost: 1_050_000_000 };
    let d = b.data();
    assert_eq!(d.len(), 24);
    assert_eq!(&d[..8], &BUY_DISCRIMINATOR);
    assert_eq!(&d[8..16], &0x0102030405060708u64.to_le_bytes());
    assert_eq!(&d[16..24], &1_050_000_000u64.to_le_bytes());
    let s = Sell { amount: 7, min_sol_output: 9 };
    let d = s.data();
    assert_eq!(&d[..8], &SELL_DISCRIMINATOR);
    assert_eq!(&d[8..16], &7u64.to_le_bytes());
    assert_eq!(&d[16..24], &9u64.to_le_bytes());
}

#[test]
fn mayhem_curves_pay_another_recipient() {
    let (program, fee) = token_program_and_fee(false);
    assert_eq!(program.bytes, TOKEN_PROGRAM_2022);
    assert_eq!(fee.bytes, FEE_RECIPIENT);
    let (_, fee) = token_program_and_fee(true);
    assert_eq!(fee.bytes, MAYHEM_FEE_RECIPIENT);
}

#[test]
fn buy_and_sell_instructions_target_the_program() {
    let payer = key(1);
    let mint = key(2);
    let creator = key(3);
    let buy = try_build_buy_ix(&payer, &mint, &creator, false, Buy { amount: 5, max_sol_cost: 6 }).unwrap();
    assert_eq!(buy.program_id.bytes, PUMPFUN);
    assert_eq!(buy.data, Buy { amount: 5, max_sol_cost: 6 }.data());
    assert!(buy.accounts.iter().any(|m| m.pubkey.bytes == payer.bytes && m.is_signer && m.is_writable));
    assert!(buy.accounts.iter().any(|m| m.pubkey.bytes == mint.bytes));
    let sell = try_build_sell_ix(&payer, &mint, &creator, true, Sell { amount: 5, min_sol_output: 1 }).unwrap();
    assert_eq!(sell.program_id.bytes, PUMPFUN);
    assert_eq!(sell.data, Sell { amount: 5, min_sol_output: 1 }.data());
    assert!(sell.accounts.iter().any(|m| m.pubkey.bytes == MAYHEM_FEE_RECIPIENT));
}

#[test]
fn buy_transaction_instructions_in_order() {
    let payer = key(1);
    let mint = key(2);
    let creator = key(3);
    let args = Buy { amount: 5, max_sol_cost: 6 };
    let ixs = try_buy_instructions(&payer, &mint, &creator, false, args, 100_000, false, 1_000_000).unwrap();
    assert_eq!(ixs.len(), 4);
    assert_eq!(ixs[0].program_id.bytes, COMPUTE_BUDGET_PROGRAM);
    let mut limit = vec![2u8];
    limit.extend_from_slice(&200_000u32.to_le_bytes());
    assert_eq!(ixs[0].data, limit);
    let mut price = vec![3u8];
    price.extend_from_slice(&100_000u64.to_le_bytes());
    assert_eq!(ixs[1].data, price);
    assert_eq!(ixs[3].program_id.bytes, PUMPFUN);
    assert_eq!(ixs[3].data, args.data());
    let tipped = try_buy_instructions(&payer, &mint, &creator, false, args, 100_000, true, 1_000_000).unwrap();
    assert_eq!(tipped.len(), 5);
    assert_eq!(tipped[4].program_id.bytes, SYSTEM_PROGRAM);
    let no_tip = try_buy_instructions(&payer, &mint, &creator, false, args, 100_000, true, 0).unwrap();
    assert_eq!(no_tip.len(), 4);
}

#[test]
fn sell_transaction_instructions_in_order() {
    let payer = key(1);
    let mint = key(2);
    let creator = key(3);
    let args = Sell { amount: 5, min_sol_output: 1 };
    let ixs = try_sell_instructions(&payer, &mint, &creator, false, args, 7, false, 0).unwrap();
    assert_eq!(ixs.len(), 3);
    assert_eq!(ixs[2].data, args.data());
    let tipped = try_sell_instructions(&payer, &mint, &creator, false, args, 7, true, 3).unwrap();
    assert_eq!(tipped.len(), 4);
}

#[test]
fn tip_goes_to_a_tip_account() {
    let payer = key(77);
    let tips = solami_tip_accounts();
    for _ in 0..20 {
        let ix = build_tip_ix(&payer, 1_000_000);
        assert_eq!(ix.program_id.bytes, SYSTEM_PROGRAM);
        assert_eq!(ix.accounts.len(), 2);
        assert_eq!(ix.accounts[0].pubkey.bytes, payer.bytes);
        assert!(ix.accounts[0].is_signer);
        assert!(tips.iter().any(|t| t.bytes == ix.accounts[1].pubkey.bytes));
        let mut data = vec![2u8, 0, 0, 0];
        data.extend_from_slice(&1_000_000u64.to_le_bytes());
        assert_eq!(ix.data, data);
    }
}

fn sdk(bytes: [u8; 32]) -> solana_sdk::pubkey::Pubkey {
    solana_sdk::pubkey::Pubkey::new_from_array(bytes)
}

fn program_pda(seeds: &[&[u8]]) -> [u8; 32] {
    solana_sdk::pubkey::Pubkey::find_program_address(seeds, &sdk(PUMPFUN)).0.to_bytes()
}

fn ata(owner: [u8; 32], mint: [u8; 32]) -> [u8; 32] {
    spl_associated_token_account::get_associated_token_address_with_program_id(&sdk(owner), &sdk(mint), &sdk(TOKEN_PROGRAM_2022))
        .to_bytes()
}

#[test]
fn buy_instruction_accounts_in_program_order() {
    let payer = key(1);
    let mint = key(2);
    let creator = key(3);
    let ix = try_build_buy_ix(&payer, &mint, &creator, false, Buy { amount: 1, max_sol_cost: 2 }).unwrap();
    let bc = program_pda(&[b"bonding-curve", &mint.bytes]);
    let expected: Vec<([u8; 32], bool, bool)> = vec![
        (program_pda(&[b"global"]), false, false),
        (FEE_RECIPIENT, false, true),
        (mint.bytes, false, false),
        (bc, false, true),
        (ata(bc, mint.bytes), false, true),
        (ata(payer.bytes, mint.bytes), false, true),
        (payer.bytes, true, true),
        (SYSTEM_PROGRAM, false, false),
        (TOKEN_PROGRAM_2022, false, false),
        (program_pda(&[b"creator-vault", &creator.bytes]), false, true),
        (EVENT_AUTHORITY, false, false),
        (PUMPFUN, false, false),
        (program_pda(&[b"global_volume_accumulator"]), false, true),
        (program_pda(&[b"user_volume_accumulator", &payer.bytes]), false, true),
        (FEE_CONFIG, false, false),
        (FEE_PROGRAM, false, false),
        (program_pda(&[b"bonding-curve-v2", &mint.bytes]), false, false),
    ];
    let got: Vec<([u8; 32], bool, bool)> = ix.accounts.iter().map(|m| (m.pubkey.bytes, m.is_signer, m.is_writable)).collect();
    assert_eq!(got, expected);
}

#[test]
fn sell_instruction_accounts_in_program_order() {
    let payer = key(1);
    let mint = key(2);
    let creator = key(3);
    let ix = try_build_sell_ix(&payer, &mint, &creator, false, Sell { amount: 1, min_sol_output: 2 }).unwrap();
    let bc = program_pda(&[b"bonding-curve", &mint.bytes]);
    let expected: Vec<([u8; 32], bool, bool)> = vec![
        (program_pda(&[b"global"]), false, false),
        (FEE_RECIPIENT, false, true),
        (mint.bytes, false, false),
        (bc, false, true),
        (ata(bc, mint.bytes), false, true),
        (ata(payer.bytes, mint.bytes), false, true),
        (payer.bytes, true, true),
        (SYSTEM_PROGRAM, false, false),
        (program_pda(&[b"creator-vault", &creator.bytes]), false, true),
        (TOKEN_PROGRAM_2022, false, false),
        (EVENT_AUTHORITY, false, false),
        (PUMPFUN, false, false),
        (FEE_CONFIG, false, false),
        (FEE_PROGRAM, false, false),
        (program_pda(&[b"bonding-curve-v2", &mint.bytes]), false, false),
    ];
    let got: Vec<([u8; 32], bool, bool)> = ix.accounts.iter().map(|m| (m.pubkey.bytes, m.is_signer, m.is_writable)).collect();
    assert_eq!(got, expected);
}

#[test]
fn buy_transaction_creates_the_token_account_first() {
    let payer = key(1);
    let mint = key(2);
    let ixs = try_buy_instructions(&payer, &mint, &key(3), false, Buy { amount: 1, max_sol_cost: 2 }, 5, false, 0).unwrap();
    let want = spl_associated_token_account::instruction::create_associated_token_account_idempotent(
        &sdk(payer.bytes),
        &sdk(payer.bytes),
        &sdk(mint.bytes),
        &sdk(TOKEN_PROGRAM_2022),
    );
    assert_eq!(ixs[2].program_id.bytes, want.program_id.to_bytes());
    assert_eq!(ixs[2].data, want.data);
    let got: Vec<([u8; 32], bool, bool)> = ixs[2].accounts.iter().map(|m| (m.pubkey.bytes, m.is_signer, m.is_writable)).collect();
    let exp: Vec<([u8; 32], bool, bool)> = want.accounts.iter().map(|m| (m.pubkey.to_bytes(), m.is_signer, m.is_writable)).collect();
    assert_eq!(got, exp);
}
