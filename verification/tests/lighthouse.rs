use jito_bam_boost_cli::lighthouse::{
    build_assert_deploy_slot_data, build_assert_deploy_slot_ix,
    ASSERT_UPGRADEABLE_LOADER_ACCOUNT_DISCRIMINATOR, BAM_BOOST_PROGRAM_DATA,
    LIGHTHOUSE_PROGRAM_ID,
};
use std::str::FromStr;

#[test]
fn test_lighthouse_ix_program_id() {
    let ix = build_assert_deploy_slot_ix(12345);
    assert_eq!(ix.program_id, LIGHTHOUSE_PROGRAM_ID);
}

#[test]
fn test_lighthouse_ix_accounts() {
    let ix = build_assert_deploy_slot_ix(12345);
    assert_eq!(ix.accounts.len(), 1);
    assert_eq!(ix.accounts[0].pubkey, BAM_BOOST_PROGRAM_DATA);
    assert!(!ix.accounts[0].is_signer, "target account should not be a signer");
    assert!(!ix.accounts[0].is_writable, "target account should be readonly");
}

#[test]
fn test_lighthouse_ix_data_not_empty() {
    let ix = build_assert_deploy_slot_ix(12345);
    assert!(!ix.data.is_empty());
    // First byte should be the discriminator
    assert_eq!(ix.data[0], ASSERT_UPGRADEABLE_LOADER_ACCOUNT_DISCRIMINATOR);
    // Total data length: 1 (disc) + 1 (log_level) + 1 (state_assertion variant)
    //   + 1 (program_data_assertion variant) + 8 (u64 slot) + 1 (operator) = 13
    assert_eq!(ix.data.len(), 13);
}

#[test]
fn deploy_slot_data_exact_bytes() {
    let data = build_assert_deploy_slot_data(0x0102_0304_0506_0708);
    assert_eq!(data, vec![13, 0, 3, 1, 8, 7, 6, 5, 4, 3, 2, 1, 0]);
    let data = build_assert_deploy_slot_data(12345);
    assert_eq!(&data[4..12], &12345u64.to_le_bytes());
}

#[test]
fn deploy_slot_data_reads_back_the_slot() {
    for slot in [0u64, 1, 255, 256, 12345, u64::MAX] {
        let data = build_assert_deploy_slot_data(slot);
        let mut b = [0u8; 8];
        b.copy_from_slice(&data[4..12]);
        assert_eq!(u64::from_le_bytes(b), slot);
    }
}

#[test]
fn program_id_constants_match_their_base58_names() {
    assert_eq!(
        solana_pubkey::Pubkey::from_str("L2TExMFKdjpN9kozasaurPirfHy9P8sbXoAN1qA3S95").unwrap().to_bytes(),
        LIGHTHOUSE_PROGRAM_ID
    );
    assert_eq!(
        solana_pubkey::Pubkey::from_str("jpyyQB22b4NaE4SddyzoNcSeUsUbGtBMgX9pBWdPPSr").unwrap().to_bytes(),
        BAM_BOOST_PROGRAM_DATA
    );
}
