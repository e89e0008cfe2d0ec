use jito_bam_boost_cli::bam_boost::NetworkArg;
use jito_bam_boost_cli::handler::{
    associated_token_address, merkle_tree_url, network_name, BamBoostCliHandler, CliConfig,
    HandlerError,
};
use jito_bam_boost_cli::instruction::{AccountMeta, Instruction};
use jito_bam_boost_cli::lighthouse::build_assert_deploy_slot_ix;
use jito_bam_boost_cli::cli_args::{Cli, CliError, ProgramCommand};
use jito_bam_boost_cli::bam_boost::{BamBoostCommands, ClaimStatusActions};
use jito_bam_boost_cli::programs::{
    ASSOCIATED_TOKEN_PROGRAM_ID, JITOSOL_MINT, RECENT_BLOCKHASHES_SYSVAR_ID, SYSTEM_PROGRAM_ID,
    TOKEN_PROGRAM_ID,
};
use solana_pubkey::Pubkey;
use std::str::FromStr;

fn key(b: u8) -> [u8; 32] {
    [b; 32]
}

fn handler(signer: Option<[u8; 32]>, address: Option<[u8; 32]>, print_tx: bool) -> BamBoostCliHandler {
    BamBoostCliHandler::new(
        CliConfig {
            rpc_url: "http://localhost:8899".to_string(),
            commitment: "confirmed".to_string(),
            signer,
            address,
        },
        key(7),
        print_tx,
        false,
        false,
        None,
        None,
        None,
    )
}

#[test]
fn claimant_comes_from_signer_then_address() {
    assert_eq!(handler(Some(key(1)), Some(key(2)), false).resolve_claimant(), Ok(key(1)));
    assert_eq!(handler(None, Some(key(2)), false).resolve_claimant(), Ok(key(2)));
    assert_eq!(handler(None, None, false).resolve_claimant(), Err(HandlerError::MissingClaimant));
}

#[test]
fn offline_mode_prints_the_transaction() {
    let h = handler(None, Some(key(2)), false);
    assert!(h.is_offline());
    assert!(h.should_print_tx());
    let h = handler(Some(key(1)), Some(key(2)), false);
    assert!(!h.is_offline());
    assert!(!h.should_print_tx());
    let h = handler(Some(key(1)), None, true);
    assert!(!h.is_offline());
    assert!(h.should_print_tx());
}

#[test]
fn nonce_hash_is_read_at_offset_40() {
    let data: Vec<u8> = (0u8..80).collect();
    let h = BamBoostCliHandler::parse_nonce_hash(&data).unwrap();
    let expected: Vec<u8> = (40u8..72).collect();
    assert_eq!(h.to_vec(), expected);
    assert_eq!(
        BamBoostCliHandler::parse_nonce_hash(&data[..71]),
        Err(HandlerError::NonceDataTooShort { len: 71 })
    );
    assert!(BamBoostCliHandler::parse_nonce_hash(&data[..72]).is_ok());
}

#[test]
fn merkle_tree_url_format() {
    assert_eq!(
        merkle_tree_url("mainnet", 812),
        "https://storage.googleapis.com/jito-bam-boost/mainnet/812/merkle_tree.json"
    );
    assert_eq!(
        merkle_tree_url(network_name(NetworkArg::Testnet), 0),
        "https://storage.googleapis.com/jito-bam-boost/testnet/0/merkle_tree.json"
    );
    assert_eq!(
        merkle_tree_url("mainnet", u64::MAX),
        format!("https://storage.googleapis.com/jito-bam-boost/mainnet/{}/merkle_tree.json", u64::MAX)
    );
    assert_eq!(network_name(NetworkArg::Mainnet), "mainnet");
}

#[test]
fn distributor_and_claim_status_addresses_match_find_program_address() {
    let h = handler(Some(key(1)), None, false);
    let program = Pubkey::new_from_array(key(7));
    let epoch: u64 = 812;
    let (expected, _) = Pubkey::find_program_address(
        &[b"merkle_distributor", &JITOSOL_MINT, &epoch.to_le_bytes()],
        &program,
    );
    let distributor = h.merkle_distributor_address(JITOSOL_MINT, epoch).unwrap();
    assert_eq!(distributor, expected.to_bytes());
    let (expected_status, _) = Pubkey::find_program_address(
        &[b"claim_status", &key(1), &distributor],
        &program,
    );
    assert_eq!(h.claim_status_address(key(1), distributor).unwrap(), expected_status.to_bytes());
    assert_eq!(h.claim_status_pda_of_epoch(epoch, key(1)).unwrap(), expected_status.to_bytes());
}

#[test]
fn associated_token_address_matches_spl() {
    let wallet = key(3);
    let expected = spl_associated_token_account_interface::address::get_associated_token_address_with_program_id(
        &Pubkey::new_from_array(wallet),
        &Pubkey::new_from_array(JITOSOL_MINT),
        &Pubkey::new_from_array(TOKEN_PROGRAM_ID),
    );
    assert_eq!(
        associated_token_address(&wallet, &JITOSOL_MINT, &TOKEN_PROGRAM_ID).unwrap(),
        expected.to_bytes()
    );
}

#[test]
fn program_ids_match_their_crates() {
    assert_eq!(
        Pubkey::from_str("TokenkegQfeZyiNwAJbNbGKPFXCWuBvf9Ss623VQ5DA").unwrap().to_bytes(),
        TOKEN_PROGRAM_ID
    );
    assert_eq!(
        Pubkey::from_str("ATokenGPvbdGVxr1b2hvZbsiqW5xWH25efTNsLJA8knL").unwrap().to_bytes(),
        ASSOCIATED_TOKEN_PROGRAM_ID
    );
    assert_eq!(
        Pubkey::from_str("J1toso1uCk3RLmjorhTtrVwY9HJ7X8V9yYac6Y7kGCPn").unwrap().to_bytes(),
        JITOSOL_MINT
    );
    assert_eq!(
        Pubkey::from_str("SysvarRecentB1ockHashes11111111111111111111").unwrap().to_bytes(),
        RECENT_BLOCKHASHES_SYSVAR_ID
    );
    assert_eq!(SYSTEM_PROGRAM_ID, [0u8; 32]);
}

fn claimant_of(text: &str) -> Result<[u8; 32], CliError> {
    let cli = Cli::try_parse_from(&["prog", "bam-boost", "claim-status", "get", "--epoch", "1", "--claimant", text])?;
    match cli.command {
        Some(ProgramCommand::BamBoost {
            action: BamBoostCommands::ClaimStatus { action: ClaimStatusActions::Get { claimant, .. } },
        }) => Ok(claimant),
        other => panic!("unexpected command {:?}", other),
    }
}

#[test]
fn claimant_text_is_decoded_as_base58() {
    assert_eq!(claimant_of("11111111111111111111111111111111"), Ok([0u8; 32]));
    assert_eq!(claimant_of("J1toso1uCk3RLmjorhTtrVwY9HJ7X8V9yYac6Y7kGCPn"), Ok(JITOSOL_MINT));
    assert_eq!(claimant_of("not base58 0OIl"), Err(CliError::ValueValidation));
    assert_eq!(claimant_of("1111"), Err(CliError::ValueValidation));
    assert_eq!(claimant_of(&"1".repeat(45)), Err(CliError::ValueValidation));
}

#[test]
fn nonce_advance_and_token_account_instructions() {
    let mut h = handler(Some(key(1)), None, false);
    h.nonce = Some(key(4));
    h.nonce_authority = Some(key(5));
    let ixs = h.claim_instructions(key(2), claim_ix()).unwrap();
    let nonce_ix = &ixs[0];
    assert_eq!(nonce_ix.program_id, SYSTEM_PROGRAM_ID);
    assert_eq!(
        nonce_ix.accounts,
        vec![
            AccountMeta { pubkey: key(4), is_signer: false, is_writable: true },
            AccountMeta { pubkey: RECENT_BLOCKHASHES_SYSVAR_ID, is_signer: false, is_writable: false },
            AccountMeta { pubkey: key(5), is_signer: true, is_writable: false },
        ]
    );
    assert_eq!(nonce_ix.data, vec![4, 0, 0, 0]);
    let ata_ix = &ixs[1];
    let ata = associated_token_address(&key(2), &JITOSOL_MINT, &TOKEN_PROGRAM_ID).unwrap();
    assert_eq!(ata_ix.program_id, ASSOCIATED_TOKEN_PROGRAM_ID);
    assert_eq!(
        ata_ix.accounts,
        vec![
            AccountMeta { pubkey: key(2), is_signer: true, is_writable: true },
            AccountMeta { pubkey: ata, is_signer: false, is_writable: true },
            AccountMeta { pubkey: key(2), is_signer: false, is_writable: false },
            AccountMeta { pubkey: JITOSOL_MINT, is_signer: false, is_writable: false },
            AccountMeta { pubkey: SYSTEM_PROGRAM_ID, is_signer: false, is_writable: false },
            AccountMeta { pubkey: TOKEN_PROGRAM_ID, is_signer: false, is_writable: false },
        ]
    );
    assert_eq!(ata_ix.data, vec![1]);
    let expected = spl_associated_token_account_interface::instruction::create_associated_token_account_idempotent(
        &Pubkey::new_from_array(key(2)),
        &Pubkey::new_from_array(key(2)),
        &Pubkey::new_from_array(JITOSOL_MINT),
        &Pubkey::new_from_array(TOKEN_PROGRAM_ID),
    );
    assert_eq!(expected.accounts[1].pubkey.to_bytes(), ata);
    assert_eq!(ixs[2], claim_ix());
}

fn claim_ix() -> Instruction {
    Instruction {
        program_id: key(9),
        accounts: vec![AccountMeta { pubkey: key(1), is_signer: true, is_writable: true }],
        data: vec![42],
    }
}

#[test]
fn claim_instruction_order_with_nonce_and_guard() {
    let mut h = handler(Some(key(1)), None, false);
    h.nonce = Some(key(4));
    h.assert_deploy_slot = Some(99);
    let ixs = h.claim_instructions(key(1), claim_ix()).unwrap();
    assert_eq!(ixs.len(), 4);
    assert_eq!(ixs[0].program_id, SYSTEM_PROGRAM_ID);
    assert_eq!(ixs[0].accounts[2].pubkey, key(4));
    assert_eq!(ixs[1], build_assert_deploy_slot_ix(99));
    assert_eq!(ixs[2].program_id, ASSOCIATED_TOKEN_PROGRAM_ID);
    assert_eq!(ixs[3], claim_ix());
}

#[test]
fn claim_instruction_order_plain() {
    let h = handler(Some(key(1)), None, false);
    let ixs = h.claim_instructions(key(1), claim_ix()).unwrap();
    assert_eq!(ixs.len(), 2);
    assert_eq!(ixs[0].program_id, ASSOCIATED_TOKEN_PROGRAM_ID);
    assert_eq!(ixs[1], claim_ix());
}
