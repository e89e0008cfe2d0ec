//! Program IDs and the instructions of other programs that a claim uses:
//! the system program's nonce advance and the associated token account
//! program's idempotent create.

use vstd::prelude::*;
use solana_pubkey::Pubkey;
use crate::address::spec_try_find_program_address;
use crate::instruction::{AccountMeta, Instruction, InstructionView};

verus! {

/// The system program (`11111111111111111111111111111111`).
pub const SYSTEM_PROGRAM_ID: [u8; 32] = [
    0, 0, 0, 0, 0, 0, 0, 0, 0, 0, 0, 0, 0, 0, 0, 0,
    0, 0, 0, 0, 0, 0, 0, 0, 0, 0, 0, 0, 0, 0, 0, 0,
];

/// The recent blockhashes sysvar (`SysvarRecentB1ockHashes11111111111111111111`).
pub const RECENT_BLOCKHASHES_SYSVAR_ID: [u8; 32] = [
    6, 167, 213, 23, 25, 44, 86, 142, 224, 138, 132, 95, 115, 210, 151, 136,
    207, 3, 92, 49, 69, 178, 26, 179, 68, 216, 6, 46, 169, 64, 0, 0,
];

/// The SPL Token program (`TokenkegQfeZyiNwAJbNbGKPFXCWuBvf9Ss623VQ5DA`).
pub const TOKEN_PROGRAM_ID: [u8; 32] = [
    6, 221, 246, 225, 215, 101, 161, 147, 217, 203, 225, 70, 206, 235, 121, 172,
    28, 180, 133, 237, 95, 91, 55, 145, 58, 140, 245, 133, 126, 255, 0, 169,
];

/// The associated token account program (`ATokenGPvbdGVxr1b2hvZbsiqW5xWH25efTNsLJA8knL`).
pub const ASSOCIATED_TOKEN_PROGRAM_ID: [u8; 32] = [
    140, 151, 37, 143, 78, 36, 137, 241, 187, 61, 16, 41, 20, 142, 13, 131,
    11, 90, 19, 153, 218, 255, 16, 132, 4, 142, 123, 216, 219, 233, 248, 89,
];

/// The JitoSOL mint (`J1toso1uCk3RLmjorhTtrVwY9HJ7X8V9yYac6Y7kGCPn`).
pub const JITOSOL_MINT: [u8; 32] = [
    252, 209, 65, 233, 131, 44, 175, 16, 173, 145, 116, 149, 202, 15, 39, 27,
    91, 41, 60, 212, 112, 39, 234, 115, 112, 7, 237, 64, 235, 57, 160, 189,
];

/// The SPL Token program ID, from `spl_token_interface::id`.
///
/// Trusted: the returned bytes are those of the ID that the crate declares.
#[verifier::external_body]
pub(crate) fn token_program_id() -> (r: [u8; 32])
    ensures
        r == TOKEN_PROGRAM_ID,
{
    spl_token_interface::id().to_bytes()
}

/// The seeds of a wallet's associated token account for a mint.
pub open spec fn ata_seeds(wallet: [u8; 32], mint: [u8; 32], token_program: [u8; 32]) -> Seq<Seq<u8>> {
    seq![wallet@, token_program@, mint@]
}

/// The `AdvanceNonceAccount` instruction: the nonce account (writable), the
/// recent blockhashes sysvar and the nonce authority (signer); its data is the
/// variant index 4 of `SystemInstruction` as a little-endian `u32`.
pub open spec fn spec_advance_nonce_ix(nonce: [u8; 32], authority: [u8; 32]) -> InstructionView {
    (
        SYSTEM_PROGRAM_ID@,
        seq![
            (nonce@, false, true),
            (RECENT_BLOCKHASHES_SYSVAR_ID@, false, false),
            (authority@, true, false),
        ],
        seq![4u8, 0u8, 0u8, 0u8],
    )
}

/// `solana_system_interface::instruction::advance_nonce_account`.
///
/// Trusted: the contract restates the instruction that the crate's source
/// builds (program, accounts and their flags), and the bincode encoding of the
/// `AdvanceNonceAccount` variant as its data.
#[verifier::external_body]
pub(crate) fn advance_nonce_account(nonce: &[u8; 32], authority: &[u8; 32]) -> (ix: Instruction)
    ensures
        ix@ == spec_advance_nonce_ix(*nonce, *authority),
{
    let ix = solana_system_interface::instruction::advance_nonce_account(
        &Pubkey::new_from_array(*nonce),
        &Pubkey::new_from_array(*authority),
    );
    Instruction {
        program_id: ix.program_id.to_bytes(),
        accounts: ix.accounts.iter().map(|m| AccountMeta {
            pubkey: m.pubkey.to_bytes(),
            is_signer: m.is_signer,
            is_writable: m.is_writable,
        }).collect(),
        data: ix.data,
    }
}

/// The `CreateIdempotent` instruction of the associated token account program:
/// funding account (signer, writable), the associated account `ata` (writable),
/// wallet, mint, system program, token program; data `[1]`.
pub open spec fn spec_create_ata_idempotent_ix(
    funding: [u8; 32],
    wallet: [u8; 32],
    mint: [u8; 32],
    token_program: [u8; 32],
    ata: [u8; 32],
) -> InstructionView {
    (
        ASSOCIATED_TOKEN_PROGRAM_ID@,
        seq![
            (funding@, true, true),
            (ata@, false, true),
            (wallet@, false, false),
            (mint@, false, false),
            (SYSTEM_PROGRAM_ID@, false, false),
            (token_program@, false, false),
        ],
        seq![1u8],
    )
}

/// `spl_associated_token_account_interface::instruction::create_associated_token_account_idempotent`.
///
/// Trusted: the contract restates the instruction that the crate's source
/// builds; the associated account is the program derived address of
/// `[wallet, token program, mint]` under the associated token program, which
/// the source finds with `find_program_address` (it panics when no bump seed
/// works, which `requires` leaves out).
#[verifier::external_body]
pub(crate) fn create_associated_token_account_idempotent(
    funding: &[u8; 32],
    wallet: &[u8; 32],
    mint: &[u8; 32],
    token_program: &[u8; 32],
) -> (ix: Instruction)
    requires
        spec_try_find_program_address(ata_seeds(*wallet, *mint, *token_program), ASSOCIATED_TOKEN_PROGRAM_ID@) is Some,
    ensures
        ix@ == spec_create_ata_idempotent_ix(
            *funding,
            *wallet,
            *mint,
            *token_program,
            (spec_try_find_program_address(ata_seeds(*wallet, *mint, *token_program), ASSOCIATED_TOKEN_PROGRAM_ID@)->0).0,
        ),
{
    let ix = spl_associated_token_account_interface::instruction::create_associated_token_account_idempotent(
        &Pubkey::new_from_array(*funding), &Pubkey::new_from_array(*wallet),
        &Pubkey::new_from_array(*mint), &Pubkey::new_from_array(*token_program),
    );
    Instruction {
        program_id: ix.program_id.to_bytes(),
        accounts: ix.accounts.iter().map(|m| AccountMeta {
            pubkey: m.pubkey.to_bytes(), is_signer: m.is_signer, is_writable: m.is_writable,
        }).collect(),
        data: ix.data,
    }
}

} // verus!
