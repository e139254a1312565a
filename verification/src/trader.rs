//! Trade planning: how many tokens to ask for, the slippage bounds, and the instruction
//! list of a buy or a sell transaction.
use vstd::prelude::*;
use vstd::bytes::{spec_u32_to_le_bytes, spec_u64_to_le_bytes};

use crate::curve::{buy_quote_defined, buy_tokens, sell_price, BondingCurveAccount};
use crate::instruction::{
    compute_unit_limit_ix, compute_unit_price_ix, create_ata_idempotent_ix,
    create_ata_idempotent_view, instructions_view, Instruction, InstructionView,
    COMPUTE_BUDGET_PROGRAM,
};
use crate::pubkey::Pubkey;
use crate::pumpfun::{
    build_buy_ix, build_sell_ix, buy_ix_view, sell_ix_view, trade_addresses_available,
    trade_addresses_exist, Buy, PumpFunError, Sell, TOKEN_PROGRAM_2022,
};
use crate::send_transaction::{build_tip_ix, is_tip_ix};

verus! {

/// Compute-unit limit requested by every trade.
pub const COMPUTE_UNIT_LIMIT: u32 = 200_000;

/// Why a buy cannot be planned.
#[derive(Clone, Copy, Debug, PartialEq, Eq, Structural)]
pub enum TradeError {
    /// The curve quotes zero tokens for the amount.
    ZeroTokens,
}

/// `amount` less `slippage_bps` basis points of it (rounded down, never below zero).
pub open spec fn minus_slippage(amount: int, slippage_bps: int) -> int {
    let cut = amount * slippage_bps / 10000;
    if amount >= cut { amount - cut } else { 0 }
}

/// `amount` plus `slippage_bps` basis points of it (rounded down).
pub open spec fn plus_slippage(amount: int, slippage_bps: int) -> int {
    amount + amount * slippage_bps / 10000
}

/// Slippage only widens a bound: the least accepted amount is at most the quote and the
/// most paid is at least the amount, for any non-negative basis points.
pub proof fn lemma_slippage_bounds(amount: int, slippage_bps: int)
    requires
        amount >= 0,
        slippage_bps >= 0,
    ensures
        0 <= minus_slippage(amount, slippage_bps) <= amount,
        plus_slippage(amount, slippage_bps) >= amount,
        slippage_bps == 0 ==> minus_slippage(amount, slippage_bps) == amount
            && plus_slippage(amount, slippage_bps) == amount,
{
    assert(amount * slippage_bps >= 0) by (nonlinear_arith)
        requires
            amount >= 0,
            slippage_bps >= 0,
    ;
    assert(amount * slippage_bps / 10000 >= 0);
}

/// The arithmetic of a buy stays within `u64`.
pub open spec fn buy_plan_fits(curve: BondingCurveAccount, buy_amount: u64, slippage_bps: u64) -> bool {
    &&& buy_tokens(curve, buy_amount) * slippage_bps <= u64::MAX
    &&& buy_amount * slippage_bps <= u64::MAX
    &&& plus_slippage(buy_amount as int, slippage_bps as int) <= u64::MAX
}

/// Plans a buy of `buy_amount_lamports`: ask for the quoted tokens less slippage, and allow
/// up to the amount plus slippage in cost.
pub fn plan_buy(curve: &BondingCurveAccount, buy_amount_lamports: u64, slippage_bps: u64) -> (res: Result<Buy, TradeError>)
    requires
        buy_quote_defined(*curve, buy_amount_lamports),
        buy_plan_fits(*curve, buy_amount_lamports, slippage_bps),
    ensures
        buy_tokens(*curve, buy_amount_lamports) == 0 <==> res is Err,
        res matches Ok(b) ==> {
            &&& b.amount == minus_slippage(buy_tokens(*curve, buy_amount_lamports), slippage_bps as int)
            &&& b.max_sol_cost == plus_slippage(buy_amount_lamports as int, slippage_bps as int)
        },
{
    let raw_token_amount = curve.get_buy_token_amount_from_sol_amount(buy_amount_lamports);
    if raw_token_amount == 0 {
        return Err(TradeError::ZeroTokens);
    }
    let token_amount = raw_token_amount.saturating_sub(raw_token_amount * slippage_bps / 10_000);
    let max_sol_cost = buy_amount_lamports + (buy_amount_lamports * slippage_bps / 10_000);
    Ok(Buy { amount: token_amount, max_sol_cost })
}

/// Whether [`plan_buy`] can run on these inputs: the quote is defined and the arithmetic
/// fits in `u64`.
pub fn buy_plan_ok(curve: &BondingCurveAccount, buy_amount_lamports: u64, slippage_bps: u64) -> (res: bool)
    ensures
        res == (buy_quote_defined(*curve, buy_amount_lamports) && buy_plan_fits(*curve, buy_amount_lamports, slippage_bps)),
{
    if !curve.buy_quote_is_defined(buy_amount_lamports) {
        return false;
    }
    let tokens = curve.get_buy_token_amount_from_sol_amount(buy_amount_lamports) as u128;
    let a = buy_amount_lamports as u128;
    let bps = slippage_bps as u128;
    assert(tokens * bps <= 0xffff_ffff_ffff_ffff * 0xffff_ffff_ffff_ffff) by (nonlinear_arith)
        requires
            tokens <= 0xffff_ffff_ffff_ffff,
            bps <= 0xffff_ffff_ffff_ffff,
    ;
    assert(a * bps <= 0xffff_ffff_ffff_ffff * 0xffff_ffff_ffff_ffff) by (nonlinear_arith)
        requires
            a <= 0xffff_ffff_ffff_ffff,
            bps <= 0xffff_ffff_ffff_ffff,
    ;
    if tokens * bps > 0xffff_ffff_ffff_ffff || a * bps > 0xffff_ffff_ffff_ffff {
        return false;
    }
    a + a * bps / 10_000 <= 0xffff_ffff_ffff_ffff
}

/// The arithmetic of a sell stays within `u64`.
pub open spec fn sell_plan_fits(curve: BondingCurveAccount, token_amount: u64, slippage_bps: u64) -> bool {
    sell_price(curve, token_amount as int) * slippage_bps <= u64::MAX
}

/// Plans a sell of `token_amount` tokens: accept the quoted lamports less slippage.
pub fn plan_sell(curve: &BondingCurveAccount, token_amount: u64, slippage_bps: u64) -> (res: Result<Sell, PumpFunError>)
    requires
        !curve.complete ==> sell_plan_fits(*curve, token_amount, slippage_bps),
    ensures
        curve.complete ==> res matches Err(PumpFunError::CurveComplete),
        !curve.complete ==> (res matches Ok(s) && s.amount == token_amount
            && s.min_sol_output == minus_slippage(sell_price(*curve, token_amount as int), slippage_bps as int)),
{
    let expected_sol = match curve.get_sell_price(token_amount) {
        Ok(v) => v,
        Err(e) => return Err(e),
    };
    let min_sol_output = expected_sol.saturating_sub(expected_sol * slippage_bps / 10_000);
    Ok(Sell { amount: token_amount, min_sol_output })
}

/// Whether [`plan_sell`] can run on these inputs: the curve is complete (the sell is
/// refused) or the slippage arithmetic fits in `u64`.
pub fn sell_plan_ok(curve: &BondingCurveAccount, token_amount: u64, slippage_bps: u64) -> (res: bool)
    ensures
        res == (curve.complete || sell_plan_fits(*curve, token_amount, slippage_bps)),
{
    match curve.get_sell_price(token_amount) {
        Ok(v) => {
            let v128 = v as u128;
            let bps = slippage_bps as u128;
            assert(v128 * bps <= 0xffff_ffff_ffff_ffff * 0xffff_ffff_ffff_ffff) by (nonlinear_arith)
                requires
                    v128 <= 0xffff_ffff_ffff_ffff,
                    bps <= 0xffff_ffff_ffff_ffff,
            ;
            v128 * bps <= 0xffff_ffff_ffff_ffff
        },
        Err(_) => true,
    }
}

/// Whether a trade sent through the landing service carries a tip.
pub open spec fn tipped(via_sender: bool, tip_lamports: u64) -> bool {
    via_sender && tip_lamports > 0
}

/// The compute-budget instructions every trade starts with.
pub open spec fn compute_budget_views(priority_fee: u64) -> Seq<InstructionView> {
    seq![
        InstructionView {
            program_id: COMPUTE_BUDGET_PROGRAM@,
            accounts: seq![],
            data: seq![2u8] + spec_u32_to_le_bytes(COMPUTE_UNIT_LIMIT),
        },
        InstructionView {
            program_id: COMPUTE_BUDGET_PROGRAM@,
            accounts: seq![],
            data: seq![3u8] + spec_u64_to_le_bytes(priority_fee),
        },
    ]
}

/// The body of a transaction that ends with `tail`: `fixed`, then a tip exactly when the
/// trade is tipped.
pub open spec fn with_optional_tip(ixs: Seq<InstructionView>, fixed: Seq<InstructionView>, payer: Seq<u8>, tipped: bool, tip_lamports: u64) -> bool {
    if tipped {
        &&& ixs.len() == fixed.len() + 1
        &&& ixs.subrange(0, fixed.len() as int) == fixed
        &&& is_tip_ix(ixs.last(), payer, tip_lamports)
    } else {
        ixs == fixed
    }
}

/// The instructions of a buy: compute budget, create the payer's token account if needed,
/// the `buy`, and a tip when sent through the landing service with a non-zero tip.
pub fn buy_instructions(
    payer: &Pubkey,
    mint: &Pubkey,
    creator: &Pubkey,
    is_mayhem_mode: bool,
    args: Buy,
    priority_fee_lamports: u64,
    via_sender: bool,
    tip_amount_lamports: u64,
) -> (res: Vec<Instruction>)
    requires
        trade_addresses_exist(payer@, mint@, creator@, true),
    ensures
        with_optional_tip(
            instructions_view(res@),
            compute_budget_views(priority_fee_lamports).push(
                create_ata_idempotent_view(payer@, payer@, mint@, TOKEN_PROGRAM_2022@),
            ).push(buy_ix_view(payer@, mint@, creator@, is_mayhem_mode, args)),
            payer@,
            tipped(via_sender, tip_amount_lamports),
            tip_amount_lamports,
        ),
{
    let token_prog = Pubkey::new_from_array(TOKEN_PROGRAM_2022);
    let create_ata_ix = create_ata_idempotent_ix(payer, payer, mint, &token_prog);
    let buy_ix = build_buy_ix(payer, mint, creator, is_mayhem_mode, args);
    let mut ixs = vec![
        compute_unit_limit_ix(COMPUTE_UNIT_LIMIT),
        compute_unit_price_ix(priority_fee_lamports),
        create_ata_ix,
        buy_ix,
    ];
    let ghost fixed = instructions_view(ixs@);
    if via_sender && tip_amount_lamports > 0 {
        ixs.push(build_tip_ix(payer, tip_amount_lamports));
        assert(instructions_view(ixs@).subrange(0, 4) =~= fixed);
    }
    assert(fixed =~= compute_budget_views(priority_fee_lamports).push(
        create_ata_idempotent_view(payer@, payer@, mint@, TOKEN_PROGRAM_2022@),
    ).push(buy_ix_view(payer@, mint@, creator@, is_mayhem_mode, args)));
    ixs
}

/// The instructions of a sell: compute budget, the `sell`, and a tip when sent through
/// the landing service with a non-zero tip.
pub fn sell_instructions(
    payer: &Pubkey,
    mint: &Pubkey,
    creator: &Pubkey,
    is_mayhem_mode: bool,
    args: Sell,
    priority_fee_lamports: u64,
    via_sender: bool,
    tip_amount_lamports: u64,
) -> (res: Vec<Instruction>)
    requires
        trade_addresses_exist(payer@, mint@, creator@, false),
    ensures
        with_optional_tip(
            instructions_view(res@),
            compute_budget_views(priority_fee_lamports).push(sell_ix_view(payer@, mint@, creator@, is_mayhem_mode, args)),
            payer@,
            tipped(via_sender, tip_amount_lamports),
            tip_amount_lamports,
        ),
{
    let sell_ix = build_sell_ix(payer, mint, creator, is_mayhem_mode, args);
    let mut ixs = vec![
        compute_unit_limit_ix(COMPUTE_UNIT_LIMIT),
        compute_unit_price_ix(priority_fee_lamports),
        sell_ix,
    ];
    let ghost fixed = instructions_view(ixs@);
    if via_sender && tip_amount_lamports > 0 {
        ixs.push(build_tip_ix(payer, tip_amount_lamports));
        assert(instructions_view(ixs@).subrange(0, 3) =~= fixed);
    }
    assert(fixed =~= compute_budget_views(priority_fee_lamports).push(sell_ix_view(payer@, mint@, creator@, is_mayhem_mode, args)));
    ixs
}

/// The instructions of a buy, or `None` where one of its addresses cannot be derived.
pub fn try_buy_instructions(
    payer: &Pubkey,
    mint: &Pubkey,
    creator: &Pubkey,
    is_mayhem_mode: bool,
    args: Buy,
    priority_fee_lamports: u64,
    via_sender: bool,
    tip_amount_lamports: u64,
) -> (res: Option<Vec<Instruction>>)
    ensures
        res is Some <==> trade_addresses_exist(payer@, mint@, creator@, true),
        res matches Some(ixs) ==> with_optional_tip(
            instructions_view(ixs@),
            compute_budget_views(priority_fee_lamports).push(
                create_ata_idempotent_view(payer@, payer@, mint@, TOKEN_PROGRAM_2022@),
            ).push(buy_ix_view(payer@, mint@, creator@, is_mayhem_mode, args)),
            payer@,
            tipped(via_sender, tip_amount_lamports),
            tip_amount_lamports,
        ),
{
    if trade_addresses_available(payer, mint, creator, true) {
        Some(buy_instructions(payer, mint, creator, is_mayhem_mode, args, priority_fee_lamports, via_sender, tip_amount_lamports))
    } else {
        None
    }
}

/// The instructions of a sell, or `None` where one of its addresses cannot be derived.
pub fn try_sell_instructions(
    payer: &Pubkey,
    mint: &Pubkey,
    creator: &Pubkey,
    is_mayhem_mode: bool,
    args: Sell,
    priority_fee_lamports: u64,
    via_sender: bool,
    tip_amount_lamports: u64,
) -> (res: Option<Vec<Instruction>>)
    ensures
        res is Some <==> trade_addresses_exist(payer@, mint@, creator@, false),
        res matches Some(ixs) ==> with_optional_tip(
            instructions_view(ixs@),
            compute_budget_views(priority_fee_lamports).push(sell_ix_view(payer@, mint@, creator@, is_mayhem_mode, args)),
            payer@,
            tipped(via_sender, tip_amount_lamports),
            tip_amount_lamports,
        ),
{
    if trade_addresses_available(payer, mint, creator, false) {
        Some(sell_instructions(payer, mint, creator, is_mayhem_mode, args, priority_fee_lamports, via_sender, tip_amount_lamports))
    } else {
        None
    }
}

} // verus!
