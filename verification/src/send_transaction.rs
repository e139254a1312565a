//! Tips to the landing service and the decision taken on each confirmation poll.
use vstd::prelude::*;

use crate::instruction::{system_transfer_ix, system_transfer_data, writable, Instruction, InstructionView, SYSTEM_PROGRAM};
use crate::pubkey::Pubkey;

verus! {

/// `9N1JafTRq7jk8G3GLCV6yDjoiRLDj4mvmtGpcHTMKami`
pub const SOLAMI_TIP_ACCOUNT_0: [u8; 32] = [124, 63, 8, 254, 59, 204, 201, 163, 85, 89, 120, 10, 120, 188, 225, 74, 251, 90, 230, 105, 16, 138, 241, 95, 76, 142, 60, 28, 116, 4, 206, 149];

/// `ENKoQ3gq2kbqgmvuZVih8CHBmYzZHpxs27ZRKreNxami`
pub const SOLAMI_TIP_ACCOUNT_1: [u8; 32] = [198, 158, 98, 91, 137, 241, 189, 45, 132, 51, 41, 90, 84, 47, 164, 152, 111, 192, 121, 237, 176, 62, 6, 162, 65, 131, 121, 194, 210, 245, 84, 13];

/// `6kXV3jz3Zey4qqo5fL6EyG1tPqnwRZ9PxUDyxYX6iami`
pub const SOLAMI_TIP_ACCOUNT_2: [u8; 32] = [85, 112, 224, 151, 72, 36, 71, 48, 150, 113, 81, 19, 86, 203, 48, 80, 19, 125, 226, 254, 183, 167, 228, 22, 53, 130, 136, 247, 4, 99, 237, 125];

/// The accounts that receive landing tips.
pub open spec fn tip_accounts() -> Seq<Seq<u8>> {
    seq![SOLAMI_TIP_ACCOUNT_0@, SOLAMI_TIP_ACCOUNT_1@, SOLAMI_TIP_ACCOUNT_2@]
}

/// The accounts that receive landing tips, in order.
pub fn solami_tip_accounts() -> (res: Vec<Pubkey>)
    ensures
        res@.len() == 3,
        forall|i: int| 0 <= i < 3 ==> #[trigger] res@[i]@ == tip_accounts()[i],
{
    vec![
        Pubkey::new_from_array(SOLAMI_TIP_ACCOUNT_0),
        Pubkey::new_from_array(SOLAMI_TIP_ACCOUNT_1),
        Pubkey::new_from_array(SOLAMI_TIP_ACCOUNT_2),
    ]
}

/// `IndexedRandom::choose` (rand) with the thread-local generator `rand::rng()`: one of the
/// accounts picked at random, `None` when there are none. Which one is not stated.
#[verifier::external_body]
fn choose_account(accounts: &[Pubkey]) -> (res: Option<Pubkey>)
    ensures
        accounts@.len() == 0 <==> res is None,
        res matches Some(pk) ==> exists|i: int| 0 <= i < accounts@.len() && accounts@[i] == pk,
{
    rand::seq::IndexedRandom::choose(accounts, &mut rand::rng()).copied()
}

/// A transfer of `lamports` from `payer` to `to`.
pub open spec fn transfer_view(payer: Seq<u8>, to: Seq<u8>, lamports: u64) -> InstructionView {
    InstructionView {
        program_id: SYSTEM_PROGRAM@,
        accounts: seq![writable(payer, true), writable(to, false)],
        data: system_transfer_data(lamports),
    }
}

/// A transfer of `lamports` from `payer` to one of the tip accounts, picked at random.
pub open spec fn is_tip_ix(ix: InstructionView, payer: Seq<u8>, lamports: u64) -> bool {
    exists|i: int| 0 <= i < 3 && ix == transfer_view(payer, tip_accounts()[i], lamports)
}

/// A tip of `lamports` from `payer` to a landing tip account chosen at random.
pub fn build_tip_ix(payer: &Pubkey, lamports: u64) -> (res: Instruction)
    ensures
        is_tip_ix(res@, payer@, lamports),
{
    let accounts = solami_tip_accounts();
    let tip_account = match choose_account(accounts.as_slice()) {
        Some(pk) => pk,
        None => accounts[0],
    };
    let ix = system_transfer_ix(payer, &tip_account, lamports);
    let ghost i = choose|i: int| 0 <= i < accounts@.len() && accounts@[i] == tip_account;
    assert(ix@ == transfer_view(payer@, tip_accounts()[i], lamports));
    ix
}

/// How far the cluster has confirmed a transaction.
#[derive(Clone, Copy, Debug, PartialEq, Eq, Structural)]
pub enum ConfirmationLevel {
    Processed,
    Confirmed,
    Finalized,
}

/// What a signature-status query reported for a transaction.
#[derive(Clone, Copy, Debug, PartialEq, Eq, Structural)]
pub struct SignatureStatus {
    /// The transaction ran and failed.
    pub failed: bool,
    pub confirmation: Option<ConfirmationLevel>,
}

/// What a confirmation poll does next.
#[derive(Clone, Copy, Debug, PartialEq, Eq, Structural)]
pub enum PollStep {
    /// The transaction failed on chain.
    Failed,
    /// The transaction is confirmed or finalized.
    Confirmed,
    /// Not known yet: wait and ask again.
    Wait,
}

/// The step after a status query: a failed transaction is an error, a confirmed or
/// finalized one is done, anything else (no status yet, or only processed) waits.
pub fn confirmation_step(status: Option<SignatureStatus>) -> (res: PollStep)
    ensures
        res == (match status {
            None => PollStep::Wait,
            Some(s) => if s.failed {
                PollStep::Failed
            } else if s.confirmation == Some(ConfirmationLevel::Confirmed)
                || s.confirmation == Some(ConfirmationLevel::Finalized) {
                PollStep::Confirmed
            } else {
                PollStep::Wait
            },
        }),
{
    match status {
        None => PollStep::Wait,
        Some(s) => {
            if s.failed {
                PollStep::Failed
            } else {
                match s.confirmation {
                    Some(ConfirmationLevel::Confirmed) | Some(ConfirmationLevel::Finalized) => PollStep::Confirmed,
                    _ => PollStep::Wait,
                }
            }
        },
    }
}

} // verus!
