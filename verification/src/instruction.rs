//! Instructions as plain values, and the outside builders this program uses.
use vstd::prelude::*;
use vstd::bytes::*;

use crate::pubkey::{pda, Pubkey};

verus! {

/// One account of an instruction.
#[derive(Clone, Copy, Debug)]
pub struct AccountMeta {
    pub pubkey: Pubkey,
    pub is_signer: bool,
    pub is_writable: bool,
}

/// The value an [`AccountMeta`] stands for.
pub struct AccountMetaView {
    pub pubkey: Seq<u8>,
    pub is_signer: bool,
    pub is_writable: bool,
}

impl View for AccountMeta {
    type V = AccountMetaView;

    open spec fn view(&self) -> AccountMetaView {
        AccountMetaView { pubkey: self.pubkey@, is_signer: self.is_signer, is_writable: self.is_writable }
    }
}

/// A writable account.
pub open spec fn writable(pubkey: Seq<u8>, is_signer: bool) -> AccountMetaView {
    AccountMetaView { pubkey, is_signer, is_writable: true }
}

/// A read-only account.
pub open spec fn readonly(pubkey: Seq<u8>, is_signer: bool) -> AccountMetaView {
    AccountMetaView { pubkey, is_signer, is_writable: false }
}

impl AccountMeta {
    /// A writable account (`AccountMeta::new`).
    pub fn new(pubkey: Pubkey, is_signer: bool) -> (res: AccountMeta)
        ensures
            res@ == writable(pubkey@, is_signer),
    {
        AccountMeta { pubkey, is_signer, is_writable: true }
    }

    /// A read-only account (`AccountMeta::new_readonly`).
    pub fn new_readonly(pubkey: Pubkey, is_signer: bool) -> (res: AccountMeta)
        ensures
            res@ == readonly(pubkey@, is_signer),
    {
        AccountMeta { pubkey, is_signer, is_writable: false }
    }
}

/// A program instruction: the program to run, its accounts and its data.
#[derive(Clone, Debug)]
pub struct Instruction {
    pub program_id: Pubkey,
    pub accounts: Vec<AccountMeta>,
    pub data: Vec<u8>,
}

/// The value an [`Instruction`] stands for.
pub struct InstructionView {
    pub program_id: Seq<u8>,
    pub accounts: Seq<AccountMetaView>,
    pub data: Seq<u8>,
}

pub open spec fn metas_view(metas: Seq<AccountMeta>) -> Seq<AccountMetaView> {
    metas.map_values(|m: AccountMeta| m@)
}

impl View for Instruction {
    type V = InstructionView;

    open spec fn view(&self) -> InstructionView {
        InstructionView { program_id: self.program_id@, accounts: metas_view(self.accounts@), data: self.data@ }
    }
}

pub open spec fn instructions_view(ixs: Seq<Instruction>) -> Seq<InstructionView> {
    ixs.map_values(|ix: Instruction| ix@)
}

impl Instruction {
    /// Builds an instruction from its parts (`Instruction::new_with_bytes`).
    pub fn new_with_bytes(program_id: Pubkey, data: &[u8], accounts: Vec<AccountMeta>) -> (res: Instruction)
        ensures
            res@ == (InstructionView { program_id: program_id@, accounts: metas_view(accounts@), data: data@ }),
    {
        Instruction { program_id, accounts, data: vstd::slice::slice_to_vec(data) }
    }
}

/// The system program.
pub const SYSTEM_PROGRAM: [u8; 32] = [0, 0, 0, 0, 0, 0, 0, 0, 0, 0, 0, 0, 0, 0, 0, 0, 0, 0, 0, 0, 0, 0, 0, 0, 0, 0, 0, 0, 0, 0, 0, 0];

/// The compute-budget program, `ComputeBudget111111111111111111111111111111`.
pub const COMPUTE_BUDGET_PROGRAM: [u8; 32] = [3, 6, 70, 111, 229, 33, 23, 50, 255, 236, 173, 186, 114, 195, 155, 231, 188, 140, 229, 187, 197, 247, 18, 107, 44, 67, 155, 58, 64, 0, 0, 0];

/// The associated-token-account program, `ATokenGPvbdGVxr1b2hvZbsiqW5xWH25efTNsLJA8knL`.
pub const ASSOCIATED_TOKEN_PROGRAM: [u8; 32] = [140, 151, 37, 143, 78, 36, 137, 241, 187, 61, 16, 41, 20, 142, 13, 131, 11, 90, 19, 153, 218, 255, 16, 132, 4, 142, 123, 216, 219, 233, 248, 89];

/// `ComputeBudgetInstruction::set_compute_unit_limit` (solana_sdk::compute_budget): an
/// instruction to the compute-budget program with no accounts and data `[2]` followed by
/// the little-endian limit, as the crate's `to_instruction!` builds it.
#[verifier::external_body]
pub(crate) fn compute_unit_limit_ix(units: u32) -> (res: Instruction)
    ensures
        res@ == (InstructionView {
            program_id: COMPUTE_BUDGET_PROGRAM@,
            accounts: seq![],
            data: seq![2u8] + spec_u32_to_le_bytes(units),
        }),
{
    let ix = solana_sdk::compute_budget::ComputeBudgetInstruction::set_compute_unit_limit(units);
    Instruction {
        program_id: Pubkey { bytes: ix.program_id.to_bytes() },
        accounts: ix.accounts.iter().map(|m| AccountMeta { pubkey: Pubkey { bytes: m.pubkey.to_bytes() }, is_signer: m.is_signer, is_writable: m.is_writable }).collect(),
        data: ix.data,
    }
}

/// `ComputeBudgetInstruction::set_compute_unit_price` (solana_sdk::compute_budget): an
/// instruction to the compute-budget program with no accounts and data `[3]` followed by
/// the little-endian price in micro-lamports.
#[verifier::external_body]
pub(crate) fn compute_unit_price_ix(micro_lamports: u64) -> (res: Instruction)
    ensures
        res@ == (InstructionView {
            program_id: COMPUTE_BUDGET_PROGRAM@,
            accounts: seq![],
            data: seq![3u8] + spec_u64_to_le_bytes(micro_lamports),
        }),
{
    let ix = solana_sdk::compute_budget::ComputeBudgetInstruction::set_compute_unit_price(micro_lamports);
    Instruction {
        program_id: Pubkey { bytes: ix.program_id.to_bytes() },
        accounts: ix.accounts.iter().map(|m| AccountMeta { pubkey: Pubkey { bytes: m.pubkey.to_bytes() }, is_signer: m.is_signer, is_writable: m.is_writable }).collect(),
        data: ix.data,
    }
}

/// The data bytes of a system-program transfer of `lamports`: bincode of
/// `SystemInstruction::Transfer { lamports }`, the variant index 2 as a little-endian `u32`
/// followed by the little-endian amount.
pub open spec fn system_transfer_data(lamports: u64) -> Seq<u8> {
    seq![2u8, 0u8, 0u8, 0u8] + spec_u64_to_le_bytes(lamports)
}

/// `system_instruction::transfer` (solana_sdk): an instruction to the system program whose
/// accounts are the payer (writable, signer) and the recipient (writable), and whose data is
/// `bincode::serialize` (default options: fixed-width little-endian integers, a `u32`
/// variant index) of `SystemInstruction::Transfer { lamports }`, the third variant.
#[verifier::external_body]
pub(crate) fn system_transfer_ix(from: &Pubkey, to: &Pubkey, lamports: u64) -> (res: Instruction)
    ensures
        res@ == (InstructionView {
            program_id: SYSTEM_PROGRAM@,
            accounts: seq![writable(from@, true), writable(to@, false)],
            data: system_transfer_data(lamports),
        }),
{
    let from = solana_sdk::pubkey::Pubkey::new_from_array(from.bytes);
    let to = solana_sdk::pubkey::Pubkey::new_from_array(to.bytes);
    #[allow(deprecated)]
    let ix = solana_sdk::system_instruction::transfer(&from, &to, lamports);
    Instruction {
        program_id: Pubkey { bytes: ix.program_id.to_bytes() },
        accounts: ix.accounts.iter().map(|m| AccountMeta { pubkey: Pubkey { bytes: m.pubkey.to_bytes() }, is_signer: m.is_signer, is_writable: m.is_writable }).collect(),
        data: ix.data,
    }
}

/// The seeds from which the associated token account of `wallet` for `mint` is derived.
pub open spec fn ata_seeds(wallet: Seq<u8>, mint: Seq<u8>, token_program: Seq<u8>) -> Seq<Seq<u8>> {
    seq![wallet, token_program, mint]
}

/// The associated token account of `wallet` for `mint` under `token_program`, when it can be derived.
pub open spec fn ata_address(wallet: Seq<u8>, mint: Seq<u8>, token_program: Seq<u8>) -> Option<Seq<u8>> {
    pda(ata_seeds(wallet, mint, token_program), ASSOCIATED_TOKEN_PROGRAM@)
}

/// `get_associated_token_address_with_program_id` (spl_associated_token_account): the program
/// address of the seeds `[wallet, token_program, mint]` under the associated-token-account
/// program, found by `Pubkey::find_program_address`, which panics where no address exists
/// (excluded by `requires`).
#[verifier::external_body]
pub(crate) fn associated_token_address(wallet: &Pubkey, mint: &Pubkey, token_program: &Pubkey) -> (res: Pubkey)
    requires
        ata_address(wallet@, mint@, token_program@) is Some,
    ensures
        Some(res@) == ata_address(wallet@, mint@, token_program@),
{
    let wallet = solana_sdk::pubkey::Pubkey::new_from_array(wallet.bytes);
    let mint = solana_sdk::pubkey::Pubkey::new_from_array(mint.bytes);
    let token_program = solana_sdk::pubkey::Pubkey::new_from_array(token_program.bytes);
    #[allow(deprecated)]
    let ata = spl_associated_token_account::get_associated_token_address_with_program_id(&wallet, &mint, &token_program);
    Pubkey { bytes: ata.to_bytes() }
}

/// The instruction that creates the associated token account when it does not exist yet.
pub open spec fn create_ata_idempotent_view(funding: Seq<u8>, wallet: Seq<u8>, mint: Seq<u8>, token_program: Seq<u8>) -> InstructionView {
    InstructionView {
        program_id: ASSOCIATED_TOKEN_PROGRAM@,
        accounts: seq![
            writable(funding, true),
            writable(ata_address(wallet, mint, token_program)->0, false),
            readonly(wallet, false),
            readonly(mint, false),
            readonly(SYSTEM_PROGRAM@, false),
            readonly(token_program, false),
        ],
        data: seq![1u8],
    }
}

/// `instruction::create_associated_token_account_idempotent` (spl_associated_token_account):
/// the account list and the one data byte `1` that its source builds; it derives the
/// associated address as `get_associated_token_address_with_program_id` does, so it
/// panics where no address exists (excluded by `requires`).
#[verifier::external_body]
pub(crate) fn create_ata_idempotent_ix(funding: &Pubkey, wallet: &Pubkey, mint: &Pubkey, token_program: &Pubkey) -> (res: Instruction)
    requires
        ata_address(wallet@, mint@, token_program@) is Some,
    ensures
        res@ == create_ata_idempotent_view(funding@, wallet@, mint@, token_program@),
{
    let funding = solana_sdk::pubkey::Pubkey::new_from_array(funding.bytes);
    let wallet = solana_sdk::pubkey::Pubkey::new_from_array(wallet.bytes);
    let mint = solana_sdk::pubkey::Pubkey::new_from_array(mint.bytes);
    let token_program = solana_sdk::pubkey::Pubkey::new_from_array(token_program.bytes);
    let ix = spl_associated_token_account::instruction::create_associated_token_account_idempotent(&funding, &wallet, &mint, &token_program);
    Instruction {
        program_id: Pubkey { bytes: ix.program_id.to_bytes() },
        accounts: ix.accounts.iter().map(|m| AccountMeta { pubkey: Pubkey { bytes: m.pubkey.to_bytes() }, is_signer: m.is_signer, is_writable: m.is_writable }).collect(),
        data: ix.data,
    }
}

} // verus!
