//! Sweeping a one-time account: one signed balance transfer.
//!
//! The ledger's message format is not written out here. The message of a
//! transfer is built and serialised by the ledger's own crates, and the
//! result is named by the spec function `transfer_message`; this module
//! guards the amount, signs the message and puts the two together.

use crate::curve::base_mul;
use crate::encoding::le_bytes;
use crate::signer::{signature_of, ScalarSigner};
use solana_sdk::message::Message;
use solana_sdk::pubkey::Pubkey;
use solana_system_interface::instruction::transfer;
use vstd::prelude::*;

verus! {

/// The balance, in lamports, that a caller is advised to leave in a swept
/// account so that it can still pay the network fee. The builder does not
/// enforce it: the caller chooses the amount.
pub const MIN_REMAINING_LAMPORTS: u64 = 1_000_000;

/// The serialised message of a transaction that holds one system transfer
/// of `lamports` from the account `from`, which also pays the fee, to the
/// account `to`, with the given recent blockhash.
pub uninterp spec fn transfer_message(
    from: Seq<u8>,
    to: Seq<u8>,
    lamports: u64,
    recent_blockhash: Seq<u8>,
) -> Seq<u8>;

/// The address of the ledger's system program, which carries out
/// transfers: 32 zero bytes.
pub open spec fn system_program() -> Seq<u8> {
    Seq::new(32, |i: int| 0u8)
}

/// Whether sender, receiver and system program are three different
/// accounts, which is the case in every sweep that makes sense.
pub open spec fn distinct_accounts(from: Seq<u8>, to: Seq<u8>) -> bool {
    from != to && from != system_program() && to != system_program()
}

/// The bytes of a transfer message between distinct accounts, in order:
/// the header (one signature required, no read-only signer, one read-only
/// account that does not sign), the three account keys with the sender,
/// who pays the fee, first and the system program last, the recent
/// blockhash, and one instruction. The instruction names the system
/// program by its place, the sender and the receiver by theirs, and
/// carries twelve bytes of data: the number of the transfer instruction
/// and the amount, both little-endian.
pub open spec fn transfer_layout(
    from: Seq<u8>,
    to: Seq<u8>,
    lamports: u64,
    recent_blockhash: Seq<u8>,
) -> Seq<u8> {
    seq![1u8, 0, 1, 3] + from + to + system_program() + recent_blockhash + seq![
        1u8, 2, 2, 0, 1, 12, 2, 0, 0, 0,
    ] + le_bytes(lamports as nat, 8)
}

/// Why no sweep transaction was built.
#[derive(Clone, Copy, Debug, PartialEq, Eq)]
pub enum SweepSolError {
    /// The amount to sweep is zero.
    ZeroAmount,
    /// The signature operation failed.
    SigningFailure,
}

/// What a sweep needs: who signs and pays, who receives, how much, and a
/// recent blockhash as the anchor on the chain.
pub struct SweepSolParams<'a> {
    /// The signer made of the recovered spend scalar.
    pub signer: &'a ScalarSigner,
    /// The address that receives the funds.
    pub to: [u8; 32],
    /// The amount to move, in lamports.
    pub amount: u64,
    /// A recent blockhash.
    pub recent_blockhash: [u8; 32],
}

/// A signed transaction: the serialised message and the signatures over
/// it, one for each required signer.
#[derive(Clone, Debug)]
pub struct SweepTransaction {
    pub signatures: Vec<[u8; 64]>,
    pub message: Vec<u8>,
}

/// Calls `solana_system_interface::instruction::transfer` for the
/// instruction, `Message::new` with the sender as payer to compile it,
/// sets the blockhash and calls `Message::serialize`. The bytes depend on
/// the four arguments alone. Where the sender, the receiver and the system
/// program are three different accounts, the ledger's crates document the
/// layout, and the contract states it byte for byte; where two of them
/// coincide, the keys are merged and only the name stands for the bytes.
#[verifier::external_body]
fn transfer_message_bytes(
    from: &[u8; 32],
    to: &[u8; 32],
    lamports: u64,
    recent_blockhash: &[u8; 32],
) -> (bytes: Vec<u8>)
    ensures
        bytes@ == transfer_message(from@, to@, lamports, recent_blockhash@),
        distinct_accounts(from@, to@) ==> bytes@ == transfer_layout(
            from@,
            to@,
            lamports,
            recent_blockhash@,
        ),
{
    let payer = Pubkey::new_from_array(*from);
    let instruction = transfer(&payer, &Pubkey::new_from_array(*to), lamports);
    let mut message = Message::new(&[instruction], Some(&payer));
    message.recent_blockhash = solana_sdk::hash::Hash::new_from_array(*recent_blockhash);
    message.serialize()
}

/// Signs a serialised message and returns it with its one signature.
pub fn sign_sweep_message(signer: &ScalarSigner, message: Vec<u8>) -> (transaction:
    SweepTransaction)
    ensures
        transaction.message@ == message@,
        transaction.signatures@.len() == 1,
        transaction.signatures@[0]@ == signature_of(signer.scalar(), message@),
{
    let signature = signer.sign_message(message.as_slice());
    let mut signatures: Vec<[u8; 64]> = Vec::new();
    signatures.push(signature);
    SweepTransaction { signatures, message }
}

/// Builds and signs the transaction that moves `params.amount` lamports
/// from the signer's account to `params.to`.
///
/// A zero amount is refused as `ZeroAmount`, and nothing else is: every
/// other sweep yields the transfer message for the signer's public key,
/// signed by the signer. Between distinct accounts that message holds one
/// transfer of the amount, with the signer as sender and payer. No
/// transaction comes back with an error.
pub fn build_and_sign_sweep_sol_transaction(params: &SweepSolParams<'_>) -> (built: Result<
    SweepTransaction,
    SweepSolError,
>)
    ensures
        built is Err <==> params.amount == 0,
        built matches Err(error) ==> error == SweepSolError::ZeroAmount,
        built matches Ok(transaction) ==> {
            &&& transaction.message@ == transfer_message(
                base_mul(params.signer.scalar()),
                params.to@,
                params.amount,
                params.recent_blockhash@,
            )
            &&& distinct_accounts(base_mul(params.signer.scalar()), params.to@)
                ==> transaction.message@ == transfer_layout(
                base_mul(params.signer.scalar()),
                params.to@,
                params.amount,
                params.recent_blockhash@,
            )
            &&& transaction.signatures@.len() == 1
            &&& transaction.signatures@[0]@ == signature_of(
                params.signer.scalar(),
                transaction.message@,
            )
        },
{
    if params.amount == 0 {
        return Err(SweepSolError::ZeroAmount);
    }
    let from = params.signer.pubkey().to_bytes();
    let message = transfer_message_bytes(
        &from,
        &params.to,
        params.amount,
        &params.recent_blockhash,
    );
    Ok(sign_sweep_message(params.signer, message))
}

} // verus!
