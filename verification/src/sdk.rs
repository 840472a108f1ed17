//! Declarations and trusted wrappers for the outside crates the library
//! leans on: the solana identity, hash and transaction types, the SPL Token
//! instruction encoder, and the litesvm runtime.

use vstd::prelude::*;

use litesvm::types::{FailedTransactionMetadata, TransactionMetadata};
use litesvm::LiteSVM;
use solana_instruction::Instruction;
use solana_keypair::Keypair;
use solana_pubkey::Pubkey;
use solana_transaction::Transaction;

verus! {

#[verifier::external_type_specification]
#[verifier::external_body]
pub struct ExPubkey(Pubkey);

#[verifier::external_type_specification]
#[verifier::external_body]
pub struct ExKeypair(Keypair);

#[verifier::external_type_specification]
#[verifier::external_body]
pub struct ExHash(solana_hash::Hash);

#[verifier::external_type_specification]
#[verifier::external_body]
pub struct ExInstruction(Instruction);

#[verifier::external_type_specification]
#[verifier::external_body]
pub struct ExTransaction(Transaction);

#[verifier::external_type_specification]
#[verifier::external_body]
pub struct ExLiteSVM(LiteSVM);

#[verifier::external_type_specification]
#[verifier::external_body]
pub struct ExFailedTransactionMetadata(FailedTransactionMetadata);

#[verifier::external_type_specification]
#[verifier::external_body]
pub struct ExTransactionMetadata(TransactionMetadata);

/// The public identity a keypair signs as; it is derived from the keypair's
/// secret key alone, so equal keypairs always give the same identity.
pub uninterp spec fn pubkey_of(kp: Keypair) -> Pubkey;

/// Whether the SPL Token interface's `check_program_account` accepts this
/// program id, that is, whether it equals the crate's fixed program id.
pub uninterp spec fn is_spl_token_program(program_id: Pubkey) -> bool;

/// The instruction that the SPL Token interface encodes for an approval
/// with these identities and this amount; it depends on them alone.
pub uninterp spec fn approve_instruction(
    program_id: Pubkey,
    source: Pubkey,
    delegate: Pubkey,
    authority: Pubkey,
    signer_keys: Seq<Pubkey>,
    amount: u64,
) -> Instruction;

/// The failure value under which the SPL Token interface's rejection of a
/// program id reaches a caller: the encoder's `IncorrectProgramId` error,
/// converted into the runtime's failure type. It depends on nothing but
/// the rejected program id.
pub uninterp spec fn encoding_rejection(program_id: Pubkey) -> FailedTransactionMetadata;

/// Whether compiling a message that holds exactly this instruction, with a
/// fee payer added, keeps each of the message header's three one-byte
/// signer and read-only counts within bounds; the transaction constructor
/// aborts when one overflows. It depends on the instruction alone.
pub uninterp spec fn compiles_within_header_limits(ix: Instruction) -> bool;

/// The unsigned transaction assembled from one instruction and a
/// fee-paying identity; message compilation is deterministic, so it
/// depends on them alone.
pub uninterp spec fn unsigned_transaction_of(ix: Instruction, payer: Pubkey) -> Transaction;

/// The transaction that partial signing produces from a starting
/// transaction, the signing keypairs in order, and a recent blockhash;
/// ed25519 signing is deterministic, so it depends on them alone.
pub uninterp spec fn signed_transaction_of(
    tx: Transaction,
    signers: Seq<Keypair>,
    recent: solana_hash::Hash,
) -> Transaction;

/// Relies on `solana_signer::Signer::pubkey` for `Keypair`: the public key
/// is computed from the keypair's secret key alone.
#[verifier::external_body]
pub(crate) fn keypair_pubkey(kp: &Keypair) -> (r: Pubkey)
    ensures
        r == pubkey_of(*kp),
{
    solana_signer::Signer::pubkey(kp)
}

/// Relies on `Pubkey`'s derived `PartialEq`, which compares the 32 bytes
/// the type wraps: two pubkeys are the same value exactly when it agrees.
#[verifier::external_body]
pub(crate) fn pubkey_eq(a: &Pubkey, b: &Pubkey) -> (r: bool)
    ensures
        r == (a == b),
{
    a == b
}

/// Relies on `spl_token::id`: the fixed program id of the SPL Token
/// program. `check_program_account` accepts exactly this one id and no
/// other, so the id is also the unique value of the acceptance predicate.
#[verifier::external_body]
pub(crate) fn default_token_program() -> (r: Pubkey)
    ensures
        is_spl_token_program(r),
        forall|q: Pubkey| is_spl_token_program(q) ==> q == r,
{
    spl_token::id()
}

/// Relies on `spl_token::instruction::approve`: it returns the encoded
/// instruction exactly when the program id passes `check_program_account`,
/// and fails with `ProgramError::IncorrectProgramId` otherwise; the error
/// is converted into the runtime's failure type, as the caller returns it.
/// The instruction carries three fixed account entries plus one per listed
/// signer (the owner entry signs only when the list is empty), so a list
/// of at most 253 keys keeps the compiled message header's one-byte
/// counts in bounds beside the fee payer.
#[verifier::external_body]
pub(crate) fn encode_approve(
    program_id: &Pubkey,
    source: &Pubkey,
    delegate: &Pubkey,
    authority: &Pubkey,
    signer_keys: &Vec<Pubkey>,
    amount: u64,
) -> (r: Result<Instruction, FailedTransactionMetadata>)
    ensures
        r is Ok <==> is_spl_token_program(*program_id),
        r matches Ok(ix) ==> ix == approve_instruction(
            *program_id, *source, *delegate, *authority, signer_keys@, amount,
        ),
        r matches Ok(ix) ==> (signer_keys@.len() <= 253 ==> compiles_within_header_limits(ix)),
        r matches Err(e) ==> e == encoding_rejection(*program_id),
{
    let keys: Vec<&Pubkey> = signer_keys.iter().collect();
    spl_token::instruction::approve(program_id, source, delegate, authority, &keys, amount)
        .map_err(FailedTransactionMetadata::from)
}

/// Relies on `LiteSVM::latest_blockhash`: the runtime's current freshness
/// token; nothing is assumed of its value.
#[verifier::external_body]
pub(crate) fn latest_blockhash(svm: &LiteSVM) -> solana_hash::Hash {
    svm.latest_blockhash()
}

/// Relies on `Transaction::new_with_payer`: one unsigned transaction that
/// holds exactly the given instruction, with the payer as the fee-paying
/// identity; message compilation is deterministic, so the result is
/// named. The constructor aborts when a message header count overflows
/// its byte, so such instructions are excluded.
#[verifier::external_body]
pub(crate) fn new_transaction(ix: Instruction, payer: &Pubkey) -> (r: Transaction)
    requires
        compiles_within_header_limits(ix),
    ensures
        r == unsigned_transaction_of(ix, *payer),
{
    Transaction::new_with_payer(&[ix], Some(payer))
}

/// Relies on `Transaction::try_partial_sign`: it adds a signature from each
/// given keypair over the message and the given recent blockhash —
/// deterministic ed25519 signing, so the signed result is named — and
/// reports an error instead of signing when a keypair is not one of the
/// message's required signers; that error is converted into the runtime's
/// failure type as a signature failure.
#[verifier::external_body]
pub(crate) fn try_sign(
    tx: &mut Transaction,
    signers: &Vec<&Keypair>,
    recent: &solana_hash::Hash,
) -> (r: Result<(), FailedTransactionMetadata>)
    ensures
        r is Ok ==> *final(tx) == signed_transaction_of(
            *old(tx),
            signers@.map_values(|kp: &Keypair| *kp),
            *recent,
        ),
{
    tx.try_partial_sign(signers, *recent).map_err(|_e| FailedTransactionMetadata {
        err: solana_transaction_error::TransactionError::SignatureFailure,
        meta: TransactionMetadata::default(),
    })
}

/// Relies on `LiteSVM::send_transaction`: the runtime accepts or rejects
/// the transaction as a whole; nothing is assumed of the outcome.
#[verifier::external_body]
pub(crate) fn submit(
    svm: &mut LiteSVM,
    tx: Transaction,
) -> Result<TransactionMetadata, FailedTransactionMetadata> {
    svm.send_transaction(tx)
}

} // verus!
