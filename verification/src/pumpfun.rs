//! The PumpFun program: its addresses, events, bonding curve and instructions.
use vstd::prelude::*;
use vstd::slice::*;

use vstd::bytes::spec_u64_to_le_bytes;

use crate::codec::{push_u64_le, u64_at};
use crate::instruction::{
    ata_address, associated_token_address, metas_view, readonly, writable, AccountMeta,
    Instruction, InstructionView, SYSTEM_PROGRAM,
};
use crate::pubkey::{opt_view, pda, seeds_view, Pubkey};

verus! {

/// `metaqbxxUerdq28cj1RbAWkYQm3ybzjb6a8bt518x1s`
pub const METAPLEX_METADATA_PROGRAM: [u8; 32] = [11, 112, 101, 177, 227, 209, 124, 69, 56, 157, 82, 127, 107, 4, 195, 205, 88, 184, 108, 115, 26, 160, 253, 181, 73, 182, 209, 188, 3, 248, 41, 70];

/// `6EF8rrecthR5Dkzon8Nwu78hRvfCKubJ14M5uBEwF6P`
pub const PUMPFUN: [u8; 32] = [1, 86, 224, 246, 147, 102, 90, 207, 68, 219, 21, 104, 191, 23, 91, 170, 81, 137, 203, 151, 245, 210, 255, 59, 101, 93, 43, 182, 253, 109, 24, 176];

/// `Ce6TQqeHC9p8KetsN6JsjHK7UTZk7nasjjnr7XxXp9F1`
pub const EVENT_AUTHORITY: [u8; 32] = [172, 241, 54, 235, 1, 252, 28, 78, 136, 61, 35, 200, 181, 132, 74, 181, 154, 55, 246, 106, 221, 87, 197, 233, 172, 59, 83, 224, 89, 211, 92, 100];

/// `62qc2CNXwrYqQScmEdiZFFAnJR262PxWEuNQtxfafNgV`
pub const FEE_RECIPIENT: [u8; 32] = [74, 194, 248, 208, 221, 92, 188, 151, 227, 40, 156, 25, 124, 181, 6, 42, 84, 243, 217, 86, 185, 206, 110, 81, 21, 249, 101, 103, 170, 92, 179, 230];

/// `pfeeUxB6jkeY1Hxd7CsFCAjcbHA9rWtchMGdZ6VojVZ`
pub const FEE_PROGRAM: [u8; 32] = [12, 53, 255, 169, 5, 90, 142, 86, 141, 168, 247, 188, 7, 86, 21, 39, 76, 241, 201, 44, 164, 31, 64, 0, 156, 81, 106, 164, 20, 194, 124, 112];

/// `8Wf5TiAheLUqBrKXeYg2JtAFFMWtKdG2BSFgqUcPVwTt`
pub const FEE_CONFIG: [u8; 32] = [111, 154, 180, 164, 241, 149, 141, 192, 169, 201, 76, 63, 183, 44, 7, 153, 88, 67, 237, 164, 133, 227, 162, 79, 16, 198, 147, 153, 248, 25, 148, 15];

/// `GesfTA3X2arioaHp8bbKdjG9vJtskViWACZoYvxp4twS`
pub const MAYHEM_FEE_RECIPIENT: [u8; 32] = [232, 147, 20, 31, 177, 142, 159, 21, 116, 216, 16, 225, 120, 225, 158, 48, 96, 78, 49, 117, 170, 46, 74, 50, 223, 200, 96, 7, 39, 209, 7, 9];

/// `TokenzQdBNbLqP5VEhdkAS6EPFLC1PHnBqCXEpPxuEb`
pub const TOKEN_PROGRAM_2022: [u8; 32] = [6, 221, 246, 225, 238, 117, 143, 222, 24, 66, 93, 188, 228, 108, 205, 218, 182, 26, 252, 77, 131, 185, 13, 39, 254, 189, 249, 40, 216, 161, 139, 252];

/// `b"global"`
pub const GLOBAL_SEED: [u8; 6] = [103, 108, 111, 98, 97, 108];

/// `b"bonding-curve"`
pub const BONDING_CURVE_SEED: [u8; 13] = [98, 111, 110, 100, 105, 110, 103, 45, 99, 117, 114, 118, 101];

/// `b"bonding-curve-v2"`
pub const BONDING_CURVE_V2_SEED: [u8; 16] = [98, 111, 110, 100, 105, 110, 103, 45, 99, 117, 114, 118, 101, 45, 118, 50];

/// `b"creator-vault"`
pub const CREATOR_VAULT_SEED: [u8; 13] = [99, 114, 101, 97, 116, 111, 114, 45, 118, 97, 117, 108, 116];

/// `b"user_volume_accumulator"`
pub const USER_VOLUME_SEED: [u8; 23] = [117, 115, 101, 114, 95, 118, 111, 108, 117, 109, 101, 95, 97, 99, 99, 117, 109, 117, 108, 97, 116, 111, 114];

/// `b"global_volume_accumulator"`
pub const GLOBAL_VOLUME_SEED: [u8; 25] = [103, 108, 111, 98, 97, 108, 95, 118, 111, 108, 117, 109, 101, 95, 97, 99, 99, 117, 109, 117, 108, 97, 116, 111, 114];

/// `b"metadata"`
pub const METADATA_SEED: [u8; 8] = [109, 101, 116, 97, 100, 97, 116, 97];

/// Protocol fee in basis points.
pub const FEE_BASIS_POINTS: u64 = 95;

/// Creator fee in basis points, charged when the curve has a creator.
pub const CREATOR_FEE: u64 = 30;

pub open spec fn global_seeds() -> Seq<Seq<u8>> {
    seq![GLOBAL_SEED@]
}

pub open spec fn bonding_curve_seeds(mint: Seq<u8>) -> Seq<Seq<u8>> {
    seq![BONDING_CURVE_SEED@, mint]
}

pub open spec fn creator_vault_seeds(creator: Seq<u8>) -> Seq<Seq<u8>> {
    seq![CREATOR_VAULT_SEED@, creator]
}

pub open spec fn bonding_curve_v2_seeds(mint: Seq<u8>) -> Seq<Seq<u8>> {
    seq![BONDING_CURVE_V2_SEED@, mint]
}

pub open spec fn user_volume_seeds(user: Seq<u8>) -> Seq<Seq<u8>> {
    seq![USER_VOLUME_SEED@, user]
}

pub open spec fn global_volume_seeds() -> Seq<Seq<u8>> {
    seq![GLOBAL_VOLUME_SEED@]
}

pub open spec fn metadata_seeds(mint: Seq<u8>) -> Seq<Seq<u8>> {
    seq![METADATA_SEED@, METAPLEX_METADATA_PROGRAM@, mint]
}

fn seed(bytes: &[u8]) -> (v: Vec<u8>)
    ensures
        v@ == bytes@,
{
    slice_to_vec(bytes)
}

fn seeds_with_key(prefix: &[u8], key: &Pubkey) -> (v: Vec<Vec<u8>>)
    ensures
        seeds_view(v@) == seq![prefix@, key@],
{
    let v = vec![seed(prefix), seed(key.bytes.as_slice())];
    assert(seeds_view(v@) =~= seq![prefix@, key@]);
    v
}

fn pda_or_none(seeds: &Vec<Vec<u8>>, program_id: [u8; 32]) -> (res: Option<Pubkey>)
    ensures
        opt_view(res) == pda(seeds_view(seeds@), program_id@),
{
    match Pubkey::try_find_program_address(seeds, &Pubkey::new_from_array(program_id)) {
        Some((pk, _)) => Some(pk),
        None => None,
    }
}

/// The global state account of the program.
pub fn get_global_pda() -> (res: Pubkey)
    requires
        pda(global_seeds(), PUMPFUN@) is Some,
    ensures
        Some(res@) == pda(global_seeds(), PUMPFUN@),
{
    let seeds = vec![seed(GLOBAL_SEED.as_slice())];
    assert(seeds_view(seeds@) =~= global_seeds());
    Pubkey::find_program_address(&seeds, &Pubkey::new_from_array(PUMPFUN)).0
}

/// The global state account, or `None` where it cannot be derived.
pub fn try_get_global_pda() -> (res: Option<Pubkey>)
    ensures
        opt_view(res) == pda(global_seeds(), PUMPFUN@),
{
    let seeds = vec![seed(GLOBAL_SEED.as_slice())];
    assert(seeds_view(seeds@) =~= global_seeds());
    match pda_or_none(&seeds, PUMPFUN) {
        Some(_) => Some(get_global_pda()),
        None => None,
    }
}

/// The bonding-curve account of `mint`.
pub fn get_bonding_curve_pda(mint: &Pubkey) -> (res: Option<Pubkey>)
    ensures
        opt_view(res) == pda(bonding_curve_seeds(mint@), PUMPFUN@),
{
    pda_or_none(&seeds_with_key(BONDING_CURVE_SEED.as_slice(), mint), PUMPFUN)
}

/// The creator-vault account of `creator`.
pub fn get_creator_vault_pda(creator: &Pubkey) -> (res: Option<Pubkey>)
    ensures
        opt_view(res) == pda(creator_vault_seeds(creator@), PUMPFUN@),
{
    pda_or_none(&seeds_with_key(CREATOR_VAULT_SEED.as_slice(), creator), PUMPFUN)
}

/// The second bonding-curve account of `mint`.
pub fn get_bonding_curve_v2_pda(mint: &Pubkey) -> (res: Option<Pubkey>)
    ensures
        opt_view(res) == pda(bonding_curve_v2_seeds(mint@), PUMPFUN@),
{
    pda_or_none(&seeds_with_key(BONDING_CURVE_V2_SEED.as_slice(), mint), PUMPFUN)
}

/// The volume-accumulator account of `user`.
pub fn get_user_vol_acc(user: &Pubkey) -> (res: Option<Pubkey>)
    ensures
        opt_view(res) == pda(user_volume_seeds(user@), PUMPFUN@),
{
    pda_or_none(&seeds_with_key(USER_VOLUME_SEED.as_slice(), user), PUMPFUN)
}

/// The global volume-accumulator account.
pub fn get_global_vol_acc() -> (res: Option<Pubkey>)
    ensures
        opt_view(res) == pda(global_volume_seeds(), PUMPFUN@),
{
    let seeds = vec![seed(GLOBAL_VOLUME_SEED.as_slice())];
    assert(seeds_view(seeds@) =~= global_volume_seeds());
    pda_or_none(&seeds, PUMPFUN)
}

fn metadata_seed_list(mint: &Pubkey) -> (v: Vec<Vec<u8>>)
    ensures
        seeds_view(v@) == metadata_seeds(mint@),
{
    let v = vec![seed(METADATA_SEED.as_slice()), seed(METAPLEX_METADATA_PROGRAM.as_slice()), seed(mint.bytes.as_slice())];
    assert(seeds_view(v@) =~= metadata_seeds(mint@));
    v
}

/// The Metaplex metadata account of `mint`.
pub fn get_metadata_pda(mint: &Pubkey) -> (res: Pubkey)
    requires
        pda(metadata_seeds(mint@), METAPLEX_METADATA_PROGRAM@) is Some,
    ensures
        Some(res@) == pda(metadata_seeds(mint@), METAPLEX_METADATA_PROGRAM@),
{
    let seeds = metadata_seed_list(mint);
    Pubkey::find_program_address(&seeds, &Pubkey::new_from_array(METAPLEX_METADATA_PROGRAM)).0
}

/// The Metaplex metadata account of `mint`, or `None` where it cannot be derived.
pub fn try_get_metadata_pda(mint: &Pubkey) -> (res: Option<Pubkey>)
    ensures
        opt_view(res) == pda(metadata_seeds(mint@), METAPLEX_METADATA_PROGRAM@),
{
    let seeds = metadata_seed_list(mint);
    match pda_or_none(&seeds, METAPLEX_METADATA_PROGRAM) {
        Some(_) => Some(get_metadata_pda(mint)),
        None => None,
    }
}

} // verus!

verus! {

/// Errors of the PumpFun client.
#[derive(Debug)]
pub enum PumpFunError {
    /// The bonding-curve address could not be derived.
    PdaDerivation,
    /// The RPC node reported an error.
    Rpc(String),
    /// Account data did not decode.
    Deserialize(String),
    /// The bonding curve is complete; the token no longer trades on it.
    CurveComplete,
}

} // verus!

verus! {

/// Arguments of the program's `buy` instruction.
#[derive(Clone, Copy, Debug)]
pub struct Buy {
    pub amount: u64,
    pub max_sol_cost: u64,
}

/// Arguments of the program's `sell` instruction.
#[derive(Clone, Copy, Debug)]
pub struct Sell {
    pub amount: u64,
    pub min_sol_output: u64,
}

/// Discriminator of the `buy` instruction.
pub const BUY_DISCRIMINATOR: [u8; 8] = [102, 6, 61, 18, 1, 218, 235, 234];

/// Discriminator of the `sell` instruction.
pub const SELL_DISCRIMINATOR: [u8; 8] = [51, 230, 133, 164, 1, 127, 131, 173];

/// Instruction data: the 8-byte discriminator, then two little-endian `u64` arguments.
pub open spec fn ix_data(discriminator: Seq<u8>, a: u64, b: u64) -> Seq<u8> {
    discriminator + spec_u64_to_le_bytes(a) + spec_u64_to_le_bytes(b)
}

fn encode_ix_data(discriminator: &[u8], a: u64, b: u64) -> (res: Vec<u8>)
    ensures
        res@ == ix_data(discriminator@, a, b),
{
    let mut data: Vec<u8> = Vec::with_capacity(24);
    data.extend_from_slice(discriminator);
    push_u64_le(&mut data, a);
    push_u64_le(&mut data, b);
    assert(data@ =~= ix_data(discriminator@, a, b));
    data
}

/// The arguments written into instruction data read back from it: bytes 8..16 hold the
/// first, bytes 16..24 the second, after the discriminator.
pub proof fn lemma_ix_data_fields(discriminator: Seq<u8>, a: u64, b: u64)
    requires
        discriminator.len() == 8,
    ensures
        ix_data(discriminator, a, b).len() == 24,
        ix_data(discriminator, a, b).subrange(0, 8) == discriminator,
        u64_at(ix_data(discriminator, a, b), 8) == a,
        u64_at(ix_data(discriminator, a, b), 16) == b,
{
    vstd::bytes::lemma_auto_spec_u64_to_from_le_bytes();
    let d = ix_data(discriminator, a, b);
    assert(d.subrange(0, 8) =~= discriminator);
    assert(d.subrange(8, 16) =~= spec_u64_to_le_bytes(a));
    assert(d.subrange(16, 24) =~= spec_u64_to_le_bytes(b));
}

impl Buy {
    /// The instruction data of this `buy`.
    pub fn data(&self) -> (res: Vec<u8>)
        ensures
            res@ == ix_data(BUY_DISCRIMINATOR@, self.amount, self.max_sol_cost),
    {
        encode_ix_data(BUY_DISCRIMINATOR.as_slice(), self.amount, self.max_sol_cost)
    }
}

impl Sell {
    /// The instruction data of this `sell`.
    pub fn data(&self) -> (res: Vec<u8>)
        ensures
            res@ == ix_data(SELL_DISCRIMINATOR@, self.amount, self.min_sol_output),
    {
        encode_ix_data(SELL_DISCRIMINATOR.as_slice(), self.amount, self.min_sol_output)
    }
}

/// The token program and the fee recipient of a curve; mayhem-mode curves pay a
/// different recipient.
pub open spec fn fee_recipient_for(is_mayhem: bool) -> Seq<u8> {
    if is_mayhem { MAYHEM_FEE_RECIPIENT@ } else { FEE_RECIPIENT@ }
}

/// The token program and the fee recipient for a curve.
pub fn token_program_and_fee(is_mayhem: bool) -> (res: (Pubkey, Pubkey))
    ensures
        res.0@ == TOKEN_PROGRAM_2022@,
        res.1@ == fee_recipient_for(is_mayhem),
{
    if is_mayhem {
        (Pubkey::new_from_array(TOKEN_PROGRAM_2022), Pubkey::new_from_array(MAYHEM_FEE_RECIPIENT))
    } else {
        (Pubkey::new_from_array(TOKEN_PROGRAM_2022), Pubkey::new_from_array(FEE_RECIPIENT))
    }
}

/// The associated token account of `owner` for `mint`.
pub fn get_ata(owner: &Pubkey, mint: &Pubkey, token_program: &Pubkey) -> (res: Pubkey)
    requires
        ata_address(owner@, mint@, token_program@) is Some,
    ensures
        Some(res@) == ata_address(owner@, mint@, token_program@),
{
    associated_token_address(owner, mint, token_program)
}

/// The associated token account of `owner` for `mint`, or `None` where it cannot be derived.
pub fn try_get_ata(owner: &Pubkey, mint: &Pubkey, token_program: &Pubkey) -> (res: Option<Pubkey>)
    ensures
        opt_view(res) == ata_address(owner@, mint@, token_program@),
{
    let seeds = vec![seed(owner.bytes.as_slice()), seed(token_program.bytes.as_slice()), seed(mint.bytes.as_slice())];
    assert(seeds_view(seeds@) =~= crate::instruction::ata_seeds(owner@, mint@, token_program@));
    match pda_or_none(&seeds, crate::instruction::ASSOCIATED_TOKEN_PROGRAM) {
        Some(_) => Some(get_ata(owner, mint, token_program)),
        None => None,
    }
}

/// Every address that a trade instruction on `mint` derives exists; `with_volume` adds the
/// volume accumulators, which only `buy` uses.
pub open spec fn trade_addresses_exist(payer: Seq<u8>, mint: Seq<u8>, creator: Seq<u8>, with_volume: bool) -> bool {
    &&& pda(global_seeds(), PUMPFUN@) is Some
    &&& pda(bonding_curve_seeds(mint), PUMPFUN@) is Some
    &&& pda(creator_vault_seeds(creator), PUMPFUN@) is Some
    &&& pda(bonding_curve_v2_seeds(mint), PUMPFUN@) is Some
    &&& ata_address(pda(bonding_curve_seeds(mint), PUMPFUN@)->0, mint, TOKEN_PROGRAM_2022@) is Some
    &&& ata_address(payer, mint, TOKEN_PROGRAM_2022@) is Some
    &&& with_volume ==> pda(global_volume_seeds(), PUMPFUN@) is Some
    &&& with_volume ==> pda(user_volume_seeds(payer), PUMPFUN@) is Some
}

/// The `buy` instruction for `payer` on `mint`.
pub open spec fn buy_ix_view(payer: Seq<u8>, mint: Seq<u8>, creator: Seq<u8>, is_mayhem: bool, args: Buy) -> InstructionView {
    let bc = pda(bonding_curve_seeds(mint), PUMPFUN@)->0;
    InstructionView {
        program_id: PUMPFUN@,
        accounts: seq![
            readonly(pda(global_seeds(), PUMPFUN@)->0, false),
            writable(fee_recipient_for(is_mayhem), false),
            readonly(mint, false),
            writable(bc, false),
            writable(ata_address(bc, mint, TOKEN_PROGRAM_2022@)->0, false),
            writable(ata_address(payer, mint, TOKEN_PROGRAM_2022@)->0, false),
            writable(payer, true),
            readonly(SYSTEM_PROGRAM@, false),
            readonly(TOKEN_PROGRAM_2022@, false),
            writable(pda(creator_vault_seeds(creator), PUMPFUN@)->0, false),
            readonly(EVENT_AUTHORITY@, false),
            readonly(PUMPFUN@, false),
            writable(pda(global_volume_seeds(), PUMPFUN@)->0, false),
            writable(pda(user_volume_seeds(payer), PUMPFUN@)->0, false),
            readonly(FEE_CONFIG@, false),
            readonly(FEE_PROGRAM@, false),
            readonly(pda(bonding_curve_v2_seeds(mint), PUMPFUN@)->0, false),
        ],
        data: ix_data(BUY_DISCRIMINATOR@, args.amount, args.max_sol_cost),
    }
}

/// The `sell` instruction for `payer` on `mint`.
pub open spec fn sell_ix_view(payer: Seq<u8>, mint: Seq<u8>, creator: Seq<u8>, is_mayhem: bool, args: Sell) -> InstructionView {
    let bc = pda(bonding_curve_seeds(mint), PUMPFUN@)->0;
    InstructionView {
        program_id: PUMPFUN@,
        accounts: seq![
            readonly(pda(global_seeds(), PUMPFUN@)->0, false),
            writable(fee_recipient_for(is_mayhem), false),
            readonly(mint, false),
            writable(bc, false),
            writable(ata_address(bc, mint, TOKEN_PROGRAM_2022@)->0, false),
            writable(ata_address(payer, mint, TOKEN_PROGRAM_2022@)->0, false),
            writable(payer, true),
            readonly(SYSTEM_PROGRAM@, false),
            writable(pda(creator_vault_seeds(creator), PUMPFUN@)->0, false),
            readonly(TOKEN_PROGRAM_2022@, false),
            readonly(EVENT_AUTHORITY@, false),
            readonly(PUMPFUN@, false),
            readonly(FEE_CONFIG@, false),
            readonly(FEE_PROGRAM@, false),
            readonly(pda(bonding_curve_v2_seeds(mint), PUMPFUN@)->0, false),
        ],
        data: ix_data(SELL_DISCRIMINATOR@, args.amount, args.min_sol_output),
    }
}

/// The fee account a trade on a curve pays: the mayhem recipient for a mayhem-mode curve,
/// the ordinary recipient otherwise.
pub open spec fn pays_fee_to(accounts: Seq<AccountMeta>, is_mayhem: bool) -> bool {
    &&& accounts.len() > 1
    &&& accounts[1].pubkey@ == (if is_mayhem { MAYHEM_FEE_RECIPIENT@ } else { FEE_RECIPIENT@ })
    &&& accounts[1].is_writable
    &&& !accounts[1].is_signer
}

/// A buy and a sell on the same curve pay the same fee account, the one its mayhem flag
/// selects: the mayhem recipient for a mayhem-mode curve, the ordinary recipient otherwise;
/// it is writable and does not sign. The two flags always give two different accounts.
pub proof fn lemma_trade_fee_recipient(payer: Seq<u8>, mint: Seq<u8>, creator: Seq<u8>, is_mayhem: bool, buy: Buy, sell: Sell)
    ensures
        buy_ix_view(payer, mint, creator, is_mayhem, buy).accounts[1] == writable(
            if is_mayhem { MAYHEM_FEE_RECIPIENT@ } else { FEE_RECIPIENT@ },
            false,
        ),
        sell_ix_view(payer, mint, creator, is_mayhem, sell).accounts[1]
            == buy_ix_view(payer, mint, creator, is_mayhem, buy).accounts[1],
        buy_ix_view(payer, mint, creator, true, buy).accounts[1].pubkey
            != buy_ix_view(payer, mint, creator, false, buy).accounts[1].pubkey,
{
    assert(MAYHEM_FEE_RECIPIENT@[0] != FEE_RECIPIENT@[0]);
}

/// The `buy` instruction: `payer` spends at most `args.max_sol_cost` lamports for
/// `args.amount` tokens of `mint`.
pub fn build_buy_ix(payer: &Pubkey, mint: &Pubkey, creator: &Pubkey, is_mayhem_mode: bool, args: Buy) -> (res: Instruction)
    requires
        trade_addresses_exist(payer@, mint@, creator@, true),
    ensures
        res@ == buy_ix_view(payer@, mint@, creator@, is_mayhem_mode, args),
        res.accounts@.len() == 17,
        pays_fee_to(res.accounts@, is_mayhem_mode),
        res.program_id@ == PUMPFUN@,
{
    let (token_prog, fee_recipient) = token_program_and_fee(is_mayhem_mode);
    let bonding_curve = get_bonding_curve_pda(mint).unwrap();
    let creator_vault = get_creator_vault_pda(creator).unwrap();
    let bonding_curve_v2 = get_bonding_curve_v2_pda(mint).unwrap();
    let accounts = vec![
        AccountMeta::new_readonly(get_global_pda(), false),
        AccountMeta::new(fee_recipient, false),
        AccountMeta::new_readonly(*mint, false),
        AccountMeta::new(bonding_curve, false),
        AccountMeta::new(get_ata(&bonding_curve, mint, &token_prog), false),
        AccountMeta::new(get_ata(payer, mint, &token_prog), false),
        AccountMeta::new(*payer, true),
        AccountMeta::new_readonly(Pubkey::new_from_array(SYSTEM_PROGRAM), false),
        AccountMeta::new_readonly(token_prog, false),
        AccountMeta::new(creator_vault, false),
        AccountMeta::new_readonly(Pubkey::new_from_array(EVENT_AUTHORITY), false),
        AccountMeta::new_readonly(Pubkey::new_from_array(PUMPFUN), false),
        AccountMeta::new(get_global_vol_acc().unwrap(), false),
        AccountMeta::new(get_user_vol_acc(payer).unwrap(), false),
        AccountMeta::new_readonly(Pubkey::new_from_array(FEE_CONFIG), false),
        AccountMeta::new_readonly(Pubkey::new_from_array(FEE_PROGRAM), false),
        AccountMeta::new_readonly(bonding_curve_v2, false),
    ];
    let data = args.data();
    let ix = Instruction::new_with_bytes(Pubkey::new_from_array(PUMPFUN), data.as_slice(), accounts);
    assert(ix@.accounts =~= buy_ix_view(payer@, mint@, creator@, is_mayhem_mode, args).accounts);
    assert(ix.accounts@[1]@ == metas_view(ix.accounts@)[1]);
    ix
}

/// The `sell` instruction: `payer` sells `args.amount` tokens of `mint` for at least
/// `args.min_sol_output` lamports.
pub fn build_sell_ix(payer: &Pubkey, mint: &Pubkey, creator: &Pubkey, is_mayhem_mode: bool, args: Sell) -> (res: Instruction)
    requires
        trade_addresses_exist(payer@, mint@, creator@, false),
    ensures
        res@ == sell_ix_view(payer@, mint@, creator@, is_mayhem_mode, args),
        res.accounts@.len() == 15,
        pays_fee_to(res.accounts@, is_mayhem_mode),
        res.program_id@ == PUMPFUN@,
{
    let (token_prog, fee_recipient) = token_program_and_fee(is_mayhem_mode);
    let bonding_curve = get_bonding_curve_pda(mint).unwrap();
    let creator_vault = get_creator_vault_pda(creator).unwrap();
    let bonding_curve_v2 = get_bonding_curve_v2_pda(mint).unwrap();
    let accounts = vec![
        AccountMeta::new_readonly(get_global_pda(), false),
        AccountMeta::new(fee_recipient, false),
        AccountMeta::new_readonly(*mint, false),
        AccountMeta::new(bonding_curve, false),
        AccountMeta::new(get_ata(&bonding_curve, mint, &token_prog), false),
        AccountMeta::new(get_ata(payer, mint, &token_prog), false),
        AccountMeta::new(*payer, true),
        AccountMeta::new_readonly(Pubkey::new_from_array(SYSTEM_PROGRAM), false),
        AccountMeta::new(creator_vault, false),
        AccountMeta::new_readonly(token_prog, false),
        AccountMeta::new_readonly(Pubkey::new_from_array(EVENT_AUTHORITY), false),
        AccountMeta::new_readonly(Pubkey::new_from_array(PUMPFUN), false),
        AccountMeta::new_readonly(Pubkey::new_from_array(FEE_CONFIG), false),
        AccountMeta::new_readonly(Pubkey::new_from_array(FEE_PROGRAM), false),
        AccountMeta::new_readonly(bonding_curve_v2, false),
    ];
    let data = args.data();
    let ix = Instruction::new_with_bytes(Pubkey::new_from_array(PUMPFUN), data.as_slice(), accounts);
    assert(ix@.accounts =~= sell_ix_view(payer@, mint@, creator@, is_mayhem_mode, args).accounts);
    assert(ix.accounts@[1]@ == metas_view(ix.accounts@)[1]);
    ix
}

/// Checks that every address of a trade instruction can be derived.
pub fn trade_addresses_available(payer: &Pubkey, mint: &Pubkey, creator: &Pubkey, with_volume: bool) -> (res: bool)
    ensures
        res == trade_addresses_exist(payer@, mint@, creator@, with_volume),
{
    let token_prog = Pubkey::new_from_array(TOKEN_PROGRAM_2022);
    if try_get_global_pda().is_none() || get_creator_vault_pda(creator).is_none()
        || get_bonding_curve_v2_pda(mint).is_none() || try_get_ata(payer, mint, &token_prog).is_none() {
        return false;
    }
    let bc = match get_bonding_curve_pda(mint) {
        Some(bc) => bc,
        None => return false,
    };
    if try_get_ata(&bc, mint, &token_prog).is_none() {
        return false;
    }
    if with_volume && (get_global_vol_acc().is_none() || get_user_vol_acc(payer).is_none()) {
        return false;
    }
    true
}

/// The `buy` instruction, or `None` where one of its addresses cannot be derived.
pub fn try_build_buy_ix(payer: &Pubkey, mint: &Pubkey, creator: &Pubkey, is_mayhem_mode: bool, args: Buy) -> (res: Option<Instruction>)
    ensures
        res is Some <==> trade_addresses_exist(payer@, mint@, creator@, true),
        res matches Some(ix) ==> ix@ == buy_ix_view(payer@, mint@, creator@, is_mayhem_mode, args),
        res matches Some(ix) ==> pays_fee_to(ix.accounts@, is_mayhem_mode),
{
    if trade_addresses_available(payer, mint, creator, true) {
        Some(build_buy_ix(payer, mint, creator, is_mayhem_mode, args))
    } else {
        None
    }
}

/// The `sell` instruction, or `None` where one of its addresses cannot be derived.
pub fn try_build_sell_ix(payer: &Pubkey, mint: &Pubkey, creator: &Pubkey, is_mayhem_mode: bool, args: Sell) -> (res: Option<Instruction>)
    ensures
        res is Some <==> trade_addresses_exist(payer@, mint@, creator@, false),
        res matches Some(ix) ==> ix@ == sell_ix_view(payer@, mint@, creator@, is_mayhem_mode, args),
        res matches Some(ix) ==> pays_fee_to(ix.accounts@, is_mayhem_mode),
{
    if trade_addresses_available(payer, mint, creator, false) {
        Some(build_sell_ix(payer, mint, creator, is_mayhem_mode, args))
    } else {
        None
    }
}

} // verus!
