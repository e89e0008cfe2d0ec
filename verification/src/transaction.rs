//! Unsigned transactions in the wire form that a wallet signs: compiled
//! message, zeroed signature slots, base58 text.

use vstd::prelude::*;
use solana_pubkey::Pubkey;
use crate::instruction::{Instruction, InstructionView};

verus! {

/// The message bytes and required signature count that `solana_transaction`
/// compiles for the instructions, fee payer and recent blockhash.
pub uninterp spec fn spec_compile_message(
    ixs: Seq<InstructionView>,
    payer: [u8; 32],
    blockhash: [u8; 32],
) -> (u8, Seq<u8>);

/// How many account slots the instructions mention, the fee payer included:
/// an upper bound on the message's account keys.
pub open spec fn account_mentions(ixs: Seq<InstructionView>) -> int
    decreases ixs.len(),
{
    if ixs.len() == 0 {
        1
    } else {
        account_mentions(ixs.drop_last()) + ixs.last().1.len() + 1
    }
}

/// Every instruction's data fits the `u16` length prefix that a serialized
/// message writes before it.
pub open spec fn data_fits(ixs: Seq<InstructionView>) -> bool {
    forall|i: int| 0 <= i < ixs.len() ==> #[trigger] ixs[i].2.len() <= u16::MAX
}

/// Compile an unsigned legacy message with `Message::new`, set its recent
/// blockhash and serialize it (`Transaction::new_unsigned` and `message_data`).
///
/// Trusted: the result is the named result of those calls on the
/// instructions, payer and blockhash. Compilation panics when a key count
/// overflows a byte, and serializing panics when an instruction's data is
/// longer than its `u16` length prefix can hold. `requires` rules out both:
/// the data bound exactly, the key counts by keeping the account slots to
/// 255, each mention of a key counted, which is more than the compilation
/// needs (it counts distinct signer and read-only keys).
#[verifier::external_body]
pub(crate) fn compile_message(ixs: &Vec<Instruction>, payer: &[u8; 32], blockhash: &[u8; 32]) -> (r: (u8, Vec<u8>))
    requires
        account_mentions(ixs@.map_values(|ix: Instruction| ix@)) <= 255,
        data_fits(ixs@.map_values(|ix: Instruction| ix@)),
    ensures
        (r.0, r.1@) == spec_compile_message(ixs@.map_values(|ix: Instruction| ix@), *payer, *blockhash),
{
    let ixs: Vec<solana_transaction::Instruction> = ixs.iter().map(|ix| solana_transaction::Instruction {
        program_id: Pubkey::new_from_array(ix.program_id),
        accounts: ix.accounts.iter().map(|m| solana_transaction::AccountMeta {
            pubkey: Pubkey::new_from_array(m.pubkey), is_signer: m.is_signer, is_writable: m.is_writable,
        }).collect(),
        data: ix.data.clone(),
    }).collect();
    let mut tx = solana_transaction::Transaction::new_unsigned(
        solana_transaction::Message::new(&ixs, Some(&Pubkey::new_from_array(*payer))));
    tx.message.recent_blockhash = solana_hash::Hash::new_from_array(*blockhash);
    (tx.message.header.num_required_signatures, tx.message_data())
}

/// The base58 text of the bytes, as `bs58::encode(..).into_string()` writes it.
pub uninterp spec fn spec_base58(bytes: Seq<u8>) -> Seq<char>;

/// Encode bytes as base58 text with `bs58`.
///
/// Trusted: the result is the named result of the encoder on the bytes.
#[verifier::external_body]
pub(crate) fn base58_encode(bytes: &Vec<u8>) -> (r: String)
    ensures
        r@ == spec_base58(bytes@),
{
    bs58::encode(bytes).into_string()
}

/// The base58 text of the compiled message for the instructions, fee payer
/// and blockhash, preceded by its required signature count and one zeroed
/// 64-byte slot per required signature.
pub open spec fn framed_unsigned_text(ixs: Seq<InstructionView>, payer: [u8; 32], blockhash: [u8; 32]) -> Seq<char> {
    let compiled = spec_compile_message(ixs, payer, blockhash);
    spec_base58(seq![compiled.0] + Seq::new(64 * compiled.0 as nat, |i: int| 0u8) + compiled.1)
}

/// An unsigned transaction on the wire: the signature count, one 64-byte
/// zeroed slot per signature, then the message.
pub open spec fn spec_unsigned_wire(num_sigs: u8, message: Seq<u8>) -> Seq<u8> {
    seq![num_sigs] + Seq::new(64 * num_sigs as nat, |i: int| 0u8) + message
}

/// Frame a compiled message as an unsigned transaction.
pub fn unsigned_wire(num_sigs: u8, message: &Vec<u8>) -> (wire: Vec<u8>)
    ensures
        wire@ == spec_unsigned_wire(num_sigs, message@),
{
    let n = num_sigs as usize;
    let mut wire: Vec<u8> = Vec::new();
    wire.push(num_sigs);
    let mut k: usize = 0;
    while k < 64 * n
        invariant
            n == num_sigs,
            0 <= k <= 64 * n,
            wire@ =~= seq![num_sigs] + Seq::new(k as nat, |i: int| 0u8),
        decreases 64 * n - k,
    {
        wire.push(0u8);
        k = k + 1;
    }
    let ghost zeros = wire@;
    let mut j: usize = 0;
    while j < message.len()
        invariant
            0 <= j <= message@.len(),
            wire@ =~= zeros + message@.subrange(0, j as int),
        decreases message@.len() - j,
    {
        wire.push(message[j]);
        j = j + 1;
    }
    assert(message@.subrange(0, message@.len() as int) =~= message@);
    wire
}

/// The base58 text of the unsigned transaction for the instructions, fee payer
/// and recent blockhash.
pub open spec fn spec_unsigned_transaction_text(
    ixs: Seq<InstructionView>,
    payer: [u8; 32],
    blockhash: [u8; 32],
) -> Seq<char> {
    let (n, message) = spec_compile_message(ixs, payer, blockhash);
    spec_base58(spec_unsigned_wire(n, message))
}

/// Build the unsigned transaction that is printed instead of being sent: the
/// compiled message framed with zeroed signatures, as base58 text.
pub fn unsigned_transaction_text(ixs: &Vec<Instruction>, payer: &[u8; 32], blockhash: &[u8; 32]) -> (text: String)
    requires
        account_mentions(ixs@.map_values(|ix: Instruction| ix@)) <= 255,
        data_fits(ixs@.map_values(|ix: Instruction| ix@)),
    ensures
        text@ == spec_unsigned_transaction_text(ixs@.map_values(|ix: Instruction| ix@), *payer, *blockhash),
        text@ == framed_unsigned_text(ixs@.map_values(|ix: Instruction| ix@), *payer, *blockhash),
{
    let (n, message) = compile_message(ixs, payer, blockhash);
    let wire = unsigned_wire(n, &message);
    base58_encode(&wire)
}

} // verus!
