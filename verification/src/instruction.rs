//! Plain-value model of a Solana instruction.

use vstd::prelude::*;

verus! {

/// A 32-byte account address.
pub type Address = [u8; 32];

/// One account that an instruction reads or writes.
#[derive(Clone, Copy, Debug, PartialEq, Eq)]
pub struct AccountMeta {
    pub pubkey: [u8; 32],
    pub is_signer: bool,
    pub is_writable: bool,
}

/// The mathematical value of an [`AccountMeta`]: `(pubkey, is_signer, is_writable)`.
pub type AccountMetaView = (Seq<u8>, bool, bool);

/// The mathematical value of an [`Instruction`]: `(program_id, accounts, data)`.
pub type InstructionView = (Seq<u8>, Seq<AccountMetaView>, Seq<u8>);

impl View for AccountMeta {
    type V = AccountMetaView;

    open spec fn view(&self) -> AccountMetaView {
        (self.pubkey@, self.is_signer, self.is_writable)
    }
}

/// An instruction: the program that runs it, the accounts it touches and its data.
#[derive(Clone, Debug, PartialEq, Eq)]
pub struct Instruction {
    pub program_id: [u8; 32],
    pub accounts: Vec<AccountMeta>,
    pub data: Vec<u8>,
}

impl View for Instruction {
    type V = InstructionView;

    open spec fn view(&self) -> InstructionView {
        (self.program_id@, self.accounts@.map_values(|m: AccountMeta| m@), self.data@)
    }
}

} // verus!
