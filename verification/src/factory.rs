//! Signed transfer transactions, built on demand from a funded payer and a
//! recent blockhash.

use crate::error::BenchError;
use crate::pending::texts;
use vstd::prelude::*;

verus! {

/// What each transaction moves from the payer to a fresh account.
pub const TRANSFER_LAMPORTS: u64 = 1_000_000;

/// `solana_sdk::signer::keypair::Keypair`: the payer's key pair, carried
/// through unread.
#[verifier::external_type_specification]
#[verifier::external_body]
pub struct ExKeypair(solana_sdk::signer::keypair::Keypair);

/// `solana_sdk::pubkey::Pubkey`: the key of an account, carried through
/// unread.
#[verifier::external_type_specification]
#[verifier::external_body]
pub struct ExPubkey(solana_sdk::pubkey::Pubkey);

/// `solana_sdk::instruction::Instruction`, carried through unread.
#[verifier::external_type_specification]
#[verifier::external_body]
pub struct ExInstruction(solana_sdk::instruction::Instruction);

/// `solana_sdk::message::Message`, carried through unread.
#[verifier::external_type_specification]
#[verifier::external_body]
pub struct ExMessage(solana_sdk::message::Message);

/// `solana_sdk::transaction::Transaction`, carried through unread.
#[verifier::external_type_specification]
#[verifier::external_body]
pub struct ExTransaction(solana_sdk::transaction::Transaction);

/// `solana_sdk::signer::SignerError`: why signing failed. It is not read,
/// only told apart from success.
#[verifier::external_type_specification]
#[verifier::external_body]
pub struct ExSignerError(solana_sdk::signer::SignerError);

/// The public key of a key pair, as `Signer::pubkey` gives it.
pub uninterp spec fn pubkey_of(
    payer: solana_sdk::signer::keypair::Keypair,
) -> solana_sdk::pubkey::Pubkey;

/// The instruction that `system_instruction::transfer` builds.
pub uninterp spec fn transfer(
    from: solana_sdk::pubkey::Pubkey,
    to: solana_sdk::pubkey::Pubkey,
    lamports: u64,
) -> solana_sdk::instruction::Instruction;

/// The message that `Message::new` builds of one instruction and its payer.
pub uninterp spec fn message_of(
    instruction: solana_sdk::instruction::Instruction,
    payer: solana_sdk::pubkey::Pubkey,
) -> solana_sdk::message::Message;

/// The transaction that `Transaction::new_unsigned` builds of a message.
pub uninterp spec fn unsigned_of(
    message: solana_sdk::message::Message,
) -> solana_sdk::transaction::Transaction;

/// What `Transaction::try_sign` makes of a transaction with one signer and a
/// blockhash: the signed transaction, or nothing where it reports an error.
pub uninterp spec fn try_signed(
    tx: solana_sdk::transaction::Transaction,
    payer: solana_sdk::signer::keypair::Keypair,
    blockhash: [u8; 32],
) -> Option<solana_sdk::transaction::Transaction>;

/// The base-58 texts of a transaction's signatures, in their order.
pub uninterp spec fn signature_texts(tx: solana_sdk::transaction::Transaction) -> Seq<Seq<char>>;

/// Whether `instruction` is a transfer between two accounts.
pub open spec fn is_transfer_instruction(
    instruction: solana_sdk::instruction::Instruction,
) -> bool {
    exists|from: solana_sdk::pubkey::Pubkey, to: solana_sdk::pubkey::Pubkey, lamports: u64|
        instruction == #[trigger] transfer(from, to, lamports)
}

/// Whether `tx` is the unsigned transaction of a message that holds one
/// transfer.
pub open spec fn is_unsigned_transfer(tx: solana_sdk::transaction::Transaction) -> bool {
    exists|instruction: solana_sdk::instruction::Instruction, payer: solana_sdk::pubkey::Pubkey|
        is_transfer_instruction(instruction) && tx == unsigned_of(
            #[trigger] message_of(instruction, payer),
        )
}

/// The transfer of [`TRANSFER_LAMPORTS`] from `payer` to `to`, paid and
/// signed by `payer` and bound to `blockhash`; nothing where the payer's key
/// cannot sign it.
pub open spec fn transfer_tx(
    payer: solana_sdk::signer::keypair::Keypair,
    to: solana_sdk::pubkey::Pubkey,
    blockhash: [u8; 32],
) -> Option<solana_sdk::transaction::Transaction> {
    try_signed(
        unsigned_of(
            message_of(transfer(pubkey_of(payer), to, TRANSFER_LAMPORTS), pubkey_of(payer)),
        ),
        payer,
        blockhash,
    )
}

/// The text of the first signature of `tx`, and the failure of the run where
/// it carries none.
pub open spec fn first_signature(tx: solana_sdk::transaction::Transaction) -> Result<
    Seq<char>,
    BenchError,
> {
    if signature_texts(tx).len() > 0 {
        Ok(signature_texts(tx)[0])
    } else {
        Err(BenchError::Signing)
    }
}

/// Whether `res` is what comes of building the transfer to `to`.
pub open spec fn is_transfer_to(
    res: Result<solana_sdk::transaction::Transaction, BenchError>,
    payer: solana_sdk::signer::keypair::Keypair,
    to: solana_sdk::pubkey::Pubkey,
    blockhash: [u8; 32],
) -> bool {
    match transfer_tx(payer, to, blockhash) {
        Some(tx) => res == Ok::<solana_sdk::transaction::Transaction, BenchError>(tx),
        None => res == Err::<solana_sdk::transaction::Transaction, BenchError>(
            BenchError::Signing,
        ),
    }
}

/// Whether `res` is what comes of building the transfer to some account.
pub open spec fn is_transfer(
    res: Result<solana_sdk::transaction::Transaction, BenchError>,
    payer: solana_sdk::signer::keypair::Keypair,
    blockhash: [u8; 32],
) -> bool {
    exists|to: solana_sdk::pubkey::Pubkey| #[trigger] is_transfer_to(res, payer, to, blockhash)
}

/// Calls `Pubkey::new_unique`, which numbers the keys it hands out with a
/// counter of the process. Nothing is claimed of the key.
#[verifier::external_body]
fn fresh_pubkey() -> (key: solana_sdk::pubkey::Pubkey) {
    solana_sdk::pubkey::Pubkey::new_unique()
}

/// Calls `Signer::pubkey` on the payer's key pair. The claim: the key
/// depends on the key pair alone.
#[verifier::external_body]
fn payer_pubkey(payer: &solana_sdk::signer::keypair::Keypair) -> (key: solana_sdk::pubkey::Pubkey)
    ensures
        key == pubkey_of(*payer),
{
    solana_sdk::signer::Signer::pubkey(payer)
}

/// Calls `system_instruction::transfer`. The claim: the instruction depends
/// on the two keys and the amount alone.
#[verifier::external_body]
fn transfer_instruction(
    from: &solana_sdk::pubkey::Pubkey,
    to: &solana_sdk::pubkey::Pubkey,
    lamports: u64,
) -> (instruction: solana_sdk::instruction::Instruction)
    ensures
        instruction == transfer(*from, *to, lamports),
{
    solana_sdk::system_instruction::transfer(from, to, lamports)
}

/// Calls `Message::new` with the one instruction and the payer. The claim:
/// the message depends on the two alone. It is called for a transfer only,
/// whose few accounts the message has room for.
#[verifier::external_body]
fn message_paid_by(
    instruction: solana_sdk::instruction::Instruction,
    payer: &solana_sdk::pubkey::Pubkey,
) -> (message: solana_sdk::message::Message)
    requires
        is_transfer_instruction(instruction),
    ensures
        message == message_of(instruction, *payer),
{
    solana_sdk::message::Message::new(&[instruction], Some(payer))
}

/// Calls `Transaction::new_unsigned`. The claim: the transaction depends on
/// the message alone.
#[verifier::external_body]
fn unsigned(message: solana_sdk::message::Message) -> (tx: solana_sdk::transaction::Transaction)
    ensures
        tx == unsigned_of(message),
{
    solana_sdk::transaction::Transaction::new_unsigned(message)
}

/// Calls `Transaction::try_sign` with the payer as the only signer and the
/// blockhash made of the 32 bytes given. The claim: whether it succeeds, and
/// the signed transaction where it does, depend on the transaction, the key
/// pair and the blockhash alone. It is called for an unsigned transfer only,
/// which has a place for each signature it asks for: that of its payer at
/// least, so that a signed one carries a signature.
#[verifier::external_body]
fn try_sign(
    tx: &mut solana_sdk::transaction::Transaction,
    payer: &solana_sdk::signer::keypair::Keypair,
    blockhash: &[u8; 32],
) -> (signed: Result<(), solana_sdk::signer::SignerError>)
    requires
        is_unsigned_transfer(*old(tx)),
    ensures
        signed.is_ok() <==> try_signed(*old(tx), *payer, *blockhash).is_some(),
        signed.is_ok() ==> try_signed(*old(tx), *payer, *blockhash) == Some(*final(tx)),
        signed.is_ok() ==> signature_texts(*final(tx)).len() > 0,
{
    tx.try_sign(&[payer], solana_sdk::hash::Hash::new_from_array(*blockhash))
}

/// Calls `to_string` on each signature of the transaction, which gives its
/// base-58 text. The claim: the texts depend on the transaction alone.
#[verifier::external_body]
fn signatures_of(tx: &solana_sdk::transaction::Transaction) -> (sigs: Vec<String>)
    ensures
        texts(sigs@) == signature_texts(*tx),
{
    tx.signatures.iter().map(|sig| sig.to_string()).collect()
}

/// What becomes of a transaction after the attempt to sign it: it is handed
/// on where the attempt succeeded, and the run fails where it did not.
pub fn signing_outcome(
    tx: solana_sdk::transaction::Transaction,
    signed: Result<(), solana_sdk::signer::SignerError>,
) -> (res: Result<solana_sdk::transaction::Transaction, BenchError>)
    ensures
        res.is_ok() <==> signed.is_ok(),
        res.is_ok() ==> res.unwrap() == tx,
        res.is_err() ==> res == Err::<solana_sdk::transaction::Transaction, BenchError>(
            BenchError::Signing,
        ),
{
    match signed {
        Ok(_) => Ok(tx),
        Err(_) => Err(BenchError::Signing),
    }
}

/// What is handed to the consumer for a transaction whose signatures have
/// the texts `sigs`: the first of them. A transaction that carries no
/// signature fails the run.
pub fn signature_outcome(sigs: &Vec<String>) -> (res: Result<String, BenchError>)
    ensures
        res.is_ok() <==> sigs.len() > 0,
        res.is_ok() ==> res.unwrap()@ == sigs[0]@,
        res.is_err() ==> res == Err::<String, BenchError>(BenchError::Signing),
{
    if sigs.len() == 0 {
        Err(BenchError::Signing)
    } else {
        Ok(sigs[0].clone())
    }
}

/// The signature under which the server knows `tx`, as text: its first one.
pub fn signature_of(tx: &solana_sdk::transaction::Transaction) -> (res: Result<String, BenchError>)
    ensures
        res.is_ok() <==> first_signature(*tx).is_ok(),
        res.is_ok() ==> first_signature(*tx) == Ok::<Seq<char>, BenchError>(res.unwrap()@),
        res.is_err() ==> res == Err::<String, BenchError>(BenchError::Signing),
{
    let sigs = signatures_of(tx);
    assert(sigs.len() > 0 ==> texts(sigs@)[0] == sigs[0]@);
    signature_outcome(&sigs)
}

/// A transfer of [`TRANSFER_LAMPORTS`] from the payer to the account `to`,
/// paid and signed by the payer and bound to `blockhash`. It fails only where
/// the payer's key cannot sign; what it returns carries a signature.
pub fn transfer_to(
    funded_payer: &solana_sdk::signer::keypair::Keypair,
    to: &solana_sdk::pubkey::Pubkey,
    blockhash: &[u8; 32],
) -> (res: Result<solana_sdk::transaction::Transaction, BenchError>)
    ensures
        is_transfer_to(res, *funded_payer, *to, *blockhash),
        res.is_ok() ==> first_signature(res.unwrap()).is_ok(),
{
    let payer_key = payer_pubkey(funded_payer);
    let instruction = transfer_instruction(&payer_key, to, TRANSFER_LAMPORTS);
    let message = message_paid_by(instruction, &payer_key);
    let mut tx = unsigned(message);
    let signed = try_sign(&mut tx, funded_payer, blockhash);
    signing_outcome(tx, signed)
}

/// A transfer of [`TRANSFER_LAMPORTS`] from the payer to an account whose
/// key is made for this call, paid and signed by the payer and bound to
/// `blockhash`. It fails only where the payer's key cannot sign.
pub fn create_transaction(
    funded_payer: &solana_sdk::signer::keypair::Keypair,
    blockhash: &[u8; 32],
) -> (res: Result<solana_sdk::transaction::Transaction, BenchError>)
    ensures
        is_transfer(res, *funded_payer, *blockhash),
        res.is_ok() ==> first_signature(res.unwrap()).is_ok(),
{
    let to_pubkey = fresh_pubkey();
    transfer_to(funded_payer, &to_pubkey, blockhash)
}

/// `num_of_txs` transactions of the payer that share `blockhash`, each as
/// [`create_transaction`] makes it, in the order in which they were made; or
/// the failure of the first that could not be signed.
pub fn generate_txs(
    num_of_txs: usize,
    funded_payer: &solana_sdk::signer::keypair::Keypair,
    blockhash: &[u8; 32],
) -> (res: Result<Vec<solana_sdk::transaction::Transaction>, BenchError>)
    ensures
        res.is_ok() ==> res.unwrap().len() == num_of_txs,
        res.is_ok() ==> forall|i: int|
            0 <= i < num_of_txs ==> is_transfer(
                Ok::<solana_sdk::transaction::Transaction, BenchError>(#[trigger] res.unwrap()[i]),
                *funded_payer,
                *blockhash,
            ),
        res.is_ok() ==> forall|i: int|
            0 <= i < num_of_txs ==> first_signature(#[trigger] res.unwrap()[i]).is_ok(),
        res.is_err() ==> num_of_txs > 0 && is_transfer(
            Err::<solana_sdk::transaction::Transaction, BenchError>(BenchError::Signing),
            *funded_payer,
            *blockhash,
        ),
        res.is_err() ==> res == Err::<Vec<solana_sdk::transaction::Transaction>, BenchError>(
            BenchError::Signing,
        ),
{
    let mut txs: Vec<solana_sdk::transaction::Transaction> = Vec::new();
    let mut made: usize = 0;
    while made < num_of_txs
        invariant
            made <= num_of_txs,
            txs.len() == made,
            forall|i: int|
                0 <= i < made ==> is_transfer(
                    Ok::<solana_sdk::transaction::Transaction, BenchError>(#[trigger] txs[i]),
                    *funded_payer,
                    *blockhash,
                ),
            forall|i: int| 0 <= i < made ==> first_signature(#[trigger] txs[i]).is_ok(),
        decreases num_of_txs - made,
    {
        let next = create_transaction(funded_payer, blockhash);
        match next {
            Ok(tx) => {
                txs.push(tx);
            },
            Err(_) => {
                assert(next == Err::<solana_sdk::transaction::Transaction, BenchError>(
                    BenchError::Signing,
                ));
                return Err(BenchError::Signing);
            },
        }
        made = made + 1;
    }
    Ok(txs)
}

} // verus!
