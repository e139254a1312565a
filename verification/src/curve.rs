//! The bonding curve of a PumpFun token: its account layout and its buy and sell pricing.
use vstd::prelude::*;
use vstd::arithmetic::div_mod::{lemma_div_is_ordered, lemma_fundamental_div_mod, lemma_mod_bound, lemma_hoist_over_denominator};

use crate::codec::{bool_byte_ok, read_pubkey, read_u64, u64_at};
use crate::pubkey::{zero_address, Pubkey};
use crate::pumpfun::{PumpFunError, CREATOR_FEE, FEE_BASIS_POINTS};

verus! {

/// The state of a token's bonding curve, as the program stores it.
#[derive(Clone, Copy, Debug)]
pub struct BondingCurveAccount {
    pub discriminator: u64,
    pub virtual_token_reserves: u64,
    pub virtual_sol_reserves: u64,
    pub real_token_reserves: u64,
    pub real_sol_reserves: u64,
    pub token_total_supply: u64,
    pub complete: bool,
    pub creator: Pubkey,
    pub is_mayhem_mode: bool,
    pub is_cashback_coin: bool,
}

/// Number of bytes of the account layout; the account may hold more after it.
pub const BONDING_CURVE_LEN: usize = 83;

/// The account data holds a well-formed curve: enough bytes, and 0 or 1 in each flag byte.
pub open spec fn curve_data_ok(d: Seq<u8>) -> bool {
    &&& d.len() >= 83
    &&& bool_byte_ok(d, 48)
    &&& bool_byte_ok(d, 81)
    &&& bool_byte_ok(d, 82)
}

/// `c` holds the fields laid out in `d`: six little-endian `u64`s, the `complete` flag,
/// the creator address and two more flags.
pub open spec fn curve_from_data(c: BondingCurveAccount, d: Seq<u8>) -> bool {
    &&& c.discriminator == u64_at(d, 0)
    &&& c.virtual_token_reserves == u64_at(d, 8)
    &&& c.virtual_sol_reserves == u64_at(d, 16)
    &&& c.real_token_reserves == u64_at(d, 24)
    &&& c.real_sol_reserves == u64_at(d, 32)
    &&& c.token_total_supply == u64_at(d, 40)
    &&& c.complete == (d[48] == 1)
    &&& c.creator@ == d.subrange(49, 81)
    &&& c.is_mayhem_mode == (d[81] == 1)
    &&& c.is_cashback_coin == (d[82] == 1)
}

/// Total fee in basis points: the protocol fee, plus the creator fee when the curve has a creator.
pub open spec fn total_fee_bps(creator: Seq<u8>) -> int {
    FEE_BASIS_POINTS + if creator != zero_address() { CREATOR_FEE as int } else { 0 }
}

/// The part of `amount` lamports that buys tokens once the fee is set aside.
pub open spec fn buy_input_amount(amount: int, fee_bps: int) -> int {
    amount * 10000 / (fee_bps + 10000)
}

/// Whether the buy quote is defined: it divides by the virtual SOL reserves plus the input,
/// which must not both be zero.
pub open spec fn buy_quote_defined(c: BondingCurveAccount, amount: u64) -> bool {
    amount == 0 || c.virtual_token_reserves == 0
        || c.virtual_sol_reserves + buy_input_amount(amount as int, total_fee_bps(c.creator@)) > 0
}

/// Tokens bought for `amount` lamports on the constant-product curve, at most the real token
/// reserves.
pub open spec fn buy_tokens(c: BondingCurveAccount, amount: u64) -> int {
    if amount == 0 || c.virtual_token_reserves == 0 {
        0
    } else {
        let input = buy_input_amount(amount as int, total_fee_bps(c.creator@));
        let tokens = input * c.virtual_token_reserves / (c.virtual_sol_reserves + input);
        if tokens < c.real_token_reserves { tokens } else { c.real_token_reserves as int }
    }
}

/// Lamports the curve pays for `amount` tokens before fees.
pub open spec fn sell_gross(c: BondingCurveAccount, amount: int) -> int {
    amount * c.virtual_sol_reserves / (c.virtual_token_reserves + amount)
}

/// The fee on `gross` lamports at `fee_bps`, rounded up.
pub open spec fn fee_rounded_up(gross: int, fee_bps: int) -> int {
    (gross * fee_bps + 10000 - 1) / 10000
}

/// Lamports received for selling `amount` tokens, after fees (never below zero).
pub open spec fn sell_price(c: BondingCurveAccount, amount: int) -> int {
    if amount == 0 {
        0
    } else {
        let gross = sell_gross(c, amount);
        let fee = fee_rounded_up(gross, total_fee_bps(c.creator@));
        if gross >= fee { gross - fee } else { 0 }
    }
}

proof fn lemma_mul_div_le(a: int, v: int, t: int)
    requires
        0 <= a,
        0 <= v,
        0 <= t,
        t + a > 0,
    ensures
        0 <= a * v / (t + a) <= v,
{
    assert(a * v <= (t + a) * v) by (nonlinear_arith)
        requires
            0 <= a,
            0 <= v,
            0 <= t,
    ;
    assert(0 <= a * v) by (nonlinear_arith)
        requires
            0 <= a,
            0 <= v,
    ;
    lemma_div_is_ordered(a * v, (t + a) * v, t + a);
    assert((t + a) * v / (t + a) == v) by (nonlinear_arith)
        requires
            t + a > 0,
    ;
    assert(0 <= a * v / (t + a)) by (nonlinear_arith)
        requires
            0 <= a * v,
            t + a > 0,
    ;
}


proof fn lemma_div_cross_le(x1: int, d1: int, x2: int, d2: int)
    requires
        0 <= x1,
        0 <= x2,
        0 < d1,
        0 < d2,
        x1 * d2 <= x2 * d1,
    ensures
        x1 / d1 <= x2 / d2,
{
    let q1 = x1 / d1;
    let q2 = x2 / d2;
    let r1 = x1 % d1;
    let r2 = x2 % d2;
    lemma_fundamental_div_mod(x1, d1);
    lemma_fundamental_div_mod(x2, d2);
    lemma_mod_bound(x1, d1);
    lemma_mod_bound(x2, d2);
    assert(q1 <= q2) by (nonlinear_arith)
        requires
            x1 == d1 * q1 + r1,
            x2 == d2 * q2 + r2,
            0 <= r1 < d1,
            0 <= r2 < d2,
            x1 * d2 <= x2 * d1,
            0 < d1,
            0 < d2,
    ;
}

/// `q * v / (t + q)` grows with `q`.
proof fn lemma_ratio_monotone(q1: int, q2: int, v: int, t: int)
    requires
        0 <= q1 <= q2,
        0 <= v,
        0 <= t,
        t + q1 > 0,
    ensures
        q1 * v / (t + q1) <= q2 * v / (t + q2),
{
    assert((q1 * v) * (t + q2) <= (q2 * v) * (t + q1)) by (nonlinear_arith)
        requires
            0 <= q1 <= q2,
            0 <= v,
            0 <= t,
    ;
    assert(0 <= q1 * v) by (nonlinear_arith)
        requires
            0 <= q1,
            0 <= v,
    ;
    assert(0 <= q2 * v) by (nonlinear_arith)
        requires
            0 <= q2,
            0 <= v,
    ;
    lemma_div_cross_le(q1 * v, t + q1, q2 * v, t + q2);
}

/// After a fee of at most 100% rounded up, a larger gross amount keeps a larger net amount.
proof fn lemma_net_after_fee_monotone(g1: int, g2: int, b: int)
    requires
        0 <= g1 <= g2,
        0 <= b <= 10000,
    ensures
        fee_rounded_up(g1, b) <= g1,
        g1 - fee_rounded_up(g1, b) <= g2 - fee_rounded_up(g2, b),
{
    assert(g1 * b <= g1 * 10000) by (nonlinear_arith)
        requires
            0 <= g1,
            b <= 10000,
    ;
    lemma_div_is_ordered(g1 * b + 9999, g1 * 10000 + 9999, 10000);
    lemma_hoist_over_denominator(9999, g1, 10000);
    assert(9999int / 10000 == 0);
    assert((9999 + g1 * 10000) / 10000 == g1);
    assert(g2 * b <= g1 * b + (g2 - g1) * 10000) by (nonlinear_arith)
        requires
            0 <= g1 <= g2,
            0 <= b <= 10000,
    ;
    lemma_div_is_ordered(g2 * b + 9999, (g1 * b + 9999) + (g2 - g1) * 10000, 10000);
    lemma_hoist_over_denominator(g1 * b + 9999, g2 - g1, 10000);
}

/// Selling more tokens never pays less: the sell price grows with the amount sold.
pub proof fn lemma_sell_price_monotone(c: BondingCurveAccount, a1: u64, a2: u64)
    requires
        a1 <= a2,
    ensures
        0 <= sell_price(c, a1 as int) <= sell_price(c, a2 as int),
{
    let b = total_fee_bps(c.creator@);
    if a2 > 0 {
        lemma_mul_div_le(a2 as int, c.virtual_sol_reserves as int, c.virtual_token_reserves as int);
        lemma_net_after_fee_monotone(sell_gross(c, a2 as int), sell_gross(c, a2 as int), b);
    }
    if a1 > 0 {
        lemma_mul_div_le(a1 as int, c.virtual_sol_reserves as int, c.virtual_token_reserves as int);
        lemma_ratio_monotone(a1 as int, a2 as int, c.virtual_sol_reserves as int, c.virtual_token_reserves as int);
        lemma_net_after_fee_monotone(sell_gross(c, a1 as int), sell_gross(c, a2 as int), b);
    }
}

/// The sell price never exceeds the curve's virtual SOL reserves.
pub proof fn lemma_sell_price_bounded(c: BondingCurveAccount, amount: u64)
    ensures
        0 <= sell_price(c, amount as int) <= c.virtual_sol_reserves,
{
    if amount > 0 {
        lemma_mul_div_le(amount as int, c.virtual_sol_reserves as int, c.virtual_token_reserves as int);
        let g = sell_gross(c, amount as int);
        lemma_net_after_fee_monotone(g, g, total_fee_bps(c.creator@));
    }
}

/// Spending more lamports never buys fewer tokens.
pub proof fn lemma_buy_tokens_monotone(c: BondingCurveAccount, a1: u64, a2: u64)
    requires
        a1 <= a2,
        buy_quote_defined(c, a1),
        buy_quote_defined(c, a2),
    ensures
        0 <= buy_tokens(c, a1) <= buy_tokens(c, a2),
{
    let f = total_fee_bps(c.creator@);
    let i1 = buy_input_amount(a1 as int, f);
    let i2 = buy_input_amount(a2 as int, f);
    let v = c.virtual_token_reserves as int;
    let s = c.virtual_sol_reserves as int;
    assert(0 <= a1 * 10000) by (nonlinear_arith)
        requires
            0 <= a1,
    ;
    assert(a1 * 10000 <= a2 * 10000) by (nonlinear_arith)
        requires
            a1 <= a2,
    ;
    lemma_div_is_ordered(a1 * 10000, a2 * 10000, f + 10000);
    lemma_div_is_ordered(0, a1 * 10000, f + 10000);
    if a1 != 0 && v != 0 {
        lemma_ratio_monotone(i1, i2, v, s);
        lemma_mul_div_le(i1, v, s);
    } else if a2 != 0 && v != 0 {
        assert(0 <= i2 * v) by (nonlinear_arith)
            requires
                0 <= i2,
                0 <= v,
        ;
        lemma_div_is_ordered(0, i2 * v, s + i2);
    }
}

impl BondingCurveAccount {
    /// Reads the curve from its account data (Borsh layout); trailing bytes are ignored.
    pub fn deserialize(data: &[u8]) -> (res: Result<BondingCurveAccount, PumpFunError>)
        ensures
            match res {
                Ok(c) => curve_data_ok(data@) && curve_from_data(c, data@),
                Err(e) => !curve_data_ok(data@) && e is Deserialize,
            },
    {
        if data.len() < BONDING_CURVE_LEN {
            return Err(PumpFunError::Deserialize("Unexpected length of input".to_owned()));
        }
        if data[48] > 1 || data[81] > 1 || data[82] > 1 {
            return Err(PumpFunError::Deserialize("Invalid bool representation".to_owned()));
        }
        Ok(BondingCurveAccount {
            discriminator: read_u64(data, 0),
            virtual_token_reserves: read_u64(data, 8),
            virtual_sol_reserves: read_u64(data, 16),
            real_token_reserves: read_u64(data, 24),
            real_sol_reserves: read_u64(data, 32),
            token_total_supply: read_u64(data, 40),
            complete: data[48] == 1,
            creator: read_pubkey(data, 49),
            is_mayhem_mode: data[81] == 1,
            is_cashback_coin: data[82] == 1,
        })
    }

    /// The total fee in basis points for trades on this curve.
    fn total_fee_bps(&self) -> (res: u64)
        ensures
            res == total_fee_bps(self.creator@),
            res <= 125,
    {
        FEE_BASIS_POINTS + if !self.creator.is_default() { CREATOR_FEE } else { 0 }
    }

    /// Whether the buy quote for `amount` lamports is defined on this curve.
    pub fn buy_quote_is_defined(&self, amount: u64) -> (res: bool)
        ensures
            res == buy_quote_defined(*self, amount),
    {
        if amount == 0 || self.virtual_token_reserves == 0 {
            return true;
        }
        let total_fee_bps = self.total_fee_bps();
        let amount_128 = amount as u128;
        assert(amount_128 * 10000 <= 0xffff_ffff_ffff_ffff * 10000) by (nonlinear_arith)
            requires
                amount_128 <= 0xffff_ffff_ffff_ffff,
        ;
        let input_amount = amount_128 * 10_000 / (total_fee_bps as u128 + 10_000);
        assert(input_amount <= amount_128) by {
            lemma_mul_div_le(10000, amount_128 as int, total_fee_bps as int);
            assert(amount_128 * 10000 == 10000 * amount_128) by (nonlinear_arith);
            assert(total_fee_bps + 10000 == 10000 + total_fee_bps);
        }
        (self.virtual_sol_reserves as u128) + input_amount > 0
    }

    /// Tokens bought for `amount` lamports, at most the real token reserves.
    pub fn get_buy_token_amount_from_sol_amount(&self, amount: u64) -> (res: u64)
        requires
            buy_quote_defined(*self, amount),
        ensures
            res == buy_tokens(*self, amount),
            res <= self.real_token_reserves,
    {
        if amount == 0 || self.virtual_token_reserves == 0 {
            return 0;
        }
        let total_fee_bps = self.total_fee_bps();
        let amount_128 = amount as u128;
        assert(amount_128 * 10000 <= 0xffff_ffff_ffff_ffff * 10000) by (nonlinear_arith)
            requires
                amount_128 <= 0xffff_ffff_ffff_ffff,
        ;
        let input_amount = amount_128 * 10_000 / (total_fee_bps as u128 + 10_000);
        assert(input_amount <= amount_128) by {
            lemma_mul_div_le(10000, amount_128 as int, total_fee_bps as int);
            assert(amount_128 * 10000 == 10000 * amount_128) by (nonlinear_arith);
            assert(total_fee_bps + 10000 == 10000 + total_fee_bps);
        }
        let vtr = self.virtual_token_reserves as u128;
        let vsr = self.virtual_sol_reserves as u128;
        let rtr = self.real_token_reserves as u128;
        let denominator = vsr + input_amount;
        assert(input_amount * vtr <= 0xffff_ffff_ffff_ffff * 0xffff_ffff_ffff_ffff) by (nonlinear_arith)
            requires
                input_amount <= 0xffff_ffff_ffff_ffff,
                vtr <= 0xffff_ffff_ffff_ffff,
        ;
        let tokens = input_amount * vtr / denominator;
        if tokens < rtr {
            tokens as u64
        } else {
            rtr as u64
        }
    }

    /// Lamports received for selling `amount` tokens after fees; fails once the curve is complete.
    pub fn get_sell_price(&self, amount: u64) -> (res: Result<u64, PumpFunError>)
        ensures
            self.complete ==> res matches Err(PumpFunError::CurveComplete),
            !self.complete ==> (res matches Ok(v) && v == sell_price(*self, amount as int)),
    {
        if self.complete {
            return Err(PumpFunError::CurveComplete);
        }
        if amount == 0 {
            return Ok(0);
        }
        let total_fee_bps = self.total_fee_bps();
        let a = amount as u128;
        let vsr = self.virtual_sol_reserves as u128;
        let vtr = self.virtual_token_reserves as u128;
        assert(a * vsr <= 0xffff_ffff_ffff_ffff * 0xffff_ffff_ffff_ffff) by (nonlinear_arith)
            requires
                a <= 0xffff_ffff_ffff_ffff,
                vsr <= 0xffff_ffff_ffff_ffff,
        ;
        let sol_out = (a * vsr) / (vtr + a);
        proof {
            lemma_mul_div_le(a as int, vsr as int, vtr as int);
        }
        assert(sol_out * (total_fee_bps as u128) <= 0xffff_ffff_ffff_ffff * 125) by (nonlinear_arith)
            requires
                sol_out <= 0xffff_ffff_ffff_ffff,
                total_fee_bps <= 125,
        ;
        let fee = (sol_out * total_fee_bps as u128 + 10_000 - 1) / 10_000;
        let net = if sol_out >= fee { sol_out - fee } else { 0 };
        Ok(net as u64)
    }
}

} // verus!
