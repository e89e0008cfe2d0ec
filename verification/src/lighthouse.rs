//! The Lighthouse guard instruction that asserts the deploy slot of the BAM
//! Boost program.

use vstd::prelude::*;
use vstd::bytes::*;
use crate::instruction::{AccountMeta, Instruction};

verus! {

/// Lighthouse program ID (`L2TExMFKdjpN9kozasaurPirfHy9P8sbXoAN1qA3S95`).
pub const LIGHTHOUSE_PROGRAM_ID: [u8; 32] = [
    4, 223, 173, 121, 98, 255, 177, 221, 146, 93, 10, 159, 181, 230, 208, 12,
    230, 25, 91, 168, 187, 58, 145, 253, 7, 239, 152, 96, 197, 233, 123, 184,
];

/// BAM Boost ProgramData account, the upgradeable loader ProgramData PDA
/// (`jpyyQB22b4NaE4SddyzoNcSeUsUbGtBMgX9pBWdPPSr`).
pub const BAM_BOOST_PROGRAM_DATA: [u8; 32] = [
    10, 248, 165, 209, 16, 218, 110, 16, 216, 70, 128, 225, 44, 76, 115, 97,
    25, 113, 172, 129, 39, 132, 120, 89, 224, 178, 254, 165, 135, 52, 139, 195,
];

/// Discriminator of the `AssertUpgradeableLoaderAccount` instruction in Lighthouse.
pub const ASSERT_UPGRADEABLE_LOADER_ACCOUNT_DISCRIMINATOR: u8 = 13;

/// The instruction data that asserts `ProgramData { Slot { value: slot, operator: Equal } }`:
/// discriminator, `LogLevel::Silent`, variant `ProgramData`, variant `Slot`,
/// the slot as 8 little-endian bytes, `IntegerOperator::Equal`.
pub open spec fn spec_assert_deploy_slot_data(slot: u64) -> Seq<u8> {
    seq![ASSERT_UPGRADEABLE_LOADER_ACCOUNT_DISCRIMINATOR, 0u8, 3u8, 1u8]
        + spec_u64_to_le_bytes(slot) + seq![0u8]
}

/// Build the instruction data for Lighthouse `AssertUpgradeableLoaderAccount`.
pub fn build_assert_deploy_slot_data(expected_slot: u64) -> (data: Vec<u8>)
    ensures
        data@ == spec_assert_deploy_slot_data(expected_slot),
        data@.len() == 13,
{
    proof {
        lemma_auto_spec_u64_to_from_le_bytes();
    }
    let mut data: Vec<u8> = Vec::with_capacity(13);
    data.push(ASSERT_UPGRADEABLE_LOADER_ACCOUNT_DISCRIMINATOR);
    data.push(0u8);
    data.push(3u8);
    data.push(1u8);
    let slot_bytes = u64_to_le_bytes(expected_slot);
    let mut i: usize = 0;
    while i < 8
        invariant
            slot_bytes@ == spec_u64_to_le_bytes(expected_slot),
            slot_bytes@.len() == 8,
            0 <= i <= 8,
            data@ =~= seq![ASSERT_UPGRADEABLE_LOADER_ACCOUNT_DISCRIMINATOR, 0u8, 3u8, 1u8]
                + slot_bytes@.subrange(0, i as int),
        decreases 8 - i,
    {
        data.push(slot_bytes[i]);
        i = i + 1;
    }
    data.push(0u8);
    assert(slot_bytes@.subrange(0, 8) =~= slot_bytes@);
    data
}

/// A Lighthouse `AssertUpgradeableLoaderAccount` instruction asserting that the
/// BAM Boost ProgramData account was deployed at `slot`: the account is read-only
/// and does not sign.
pub open spec fn spec_assert_deploy_slot_ix(slot: u64) -> crate::instruction::InstructionView {
    (
        LIGHTHOUSE_PROGRAM_ID@,
        seq![(BAM_BOOST_PROGRAM_DATA@, false, false)],
        spec_assert_deploy_slot_data(slot),
    )
}

/// Build a Lighthouse `AssertUpgradeableLoaderAccount` instruction that asserts
/// the BAM Boost ProgramData account was deployed at the given slot.
pub fn build_assert_deploy_slot_ix(expected_slot: u64) -> (ix: Instruction)
    ensures
        ix@ == spec_assert_deploy_slot_ix(expected_slot),
{
    let mut accounts: Vec<AccountMeta> = Vec::new();
    accounts.push(AccountMeta { pubkey: BAM_BOOST_PROGRAM_DATA, is_signer: false, is_writable: false });
    let ix = Instruction {
        program_id: LIGHTHOUSE_PROGRAM_ID,
        accounts,
        data: build_assert_deploy_slot_data(expected_slot),
    };
    assert(ix@.1 =~= seq![(BAM_BOOST_PROGRAM_DATA@, false, false)]);
    ix
}

} // verus!
