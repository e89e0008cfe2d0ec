use jito_bam_boost_cli::bam_boost::{
    BamBoostCommands, ClaimStatusActions, MerkleDistributorActions, NetworkArg,
};
use jito_bam_boost_cli::claim_flow::{ClaimAction, ClaimEvent, ClaimFlow, ClaimStage, HandleStart};
use jito_bam_boost_cli::handler::{
    associated_token_address, merkle_tree_url, BamBoostCliHandler, CliConfig, HandlerError,
};
use jito_bam_boost_cli::instruction::{AccountMeta, Instruction};
use jito_bam_boost_cli::programs::{JITOSOL_MINT, TOKEN_PROGRAM_ID};
use jito_bam_boost_cli::transaction::unsigned_transaction_text;

fn key(b: u8) -> [u8; 32] {
    [b; 32]
}

fn handler(signer: Option<[u8; 32]>, address: Option<[u8; 32]>, nonce: Option<[u8; 32]>) -> BamBoostCliHandler {
    BamBoostCliHandler::new(
        CliConfig {
            rpc_url: "http://localhost:8899".to_string(),
            commitment: "confirmed".to_string(),
            signer,
            address,
        },
        key(7),
        false,
        false,
        false,
        None,
        nonce,
        None,
    )
}

fn claim_ix() -> Instruction {
    Instruction {
        program_id: key(0),
        accounts: vec![AccountMeta { pubkey: key(2), is_signer: true, is_writable: true }],
        data: vec![1, 2, 3],
    }
}

fn step(h: &BamBoostCliHandler, flow: ClaimFlow, event: ClaimEvent) -> (ClaimFlow, ClaimAction) {
    h.claim_step(flow, event).unwrap()
}

#[test]
fn offline_claim_with_nonce_prints_and_finishes() {
    let h = handler(None, Some(key(2)), Some(key(4)));
    let (flow, action) = h.claim_start("mainnet", 812).unwrap();
    match action {
        ClaimAction::FetchMerkleTree { url } => assert_eq!(url, merkle_tree_url("mainnet", 812)),
        _ => panic!("expected a merkle tree fetch"),
    }
    assert_eq!(flow.claimant, key(2));
    assert_eq!(flow.distributor, h.merkle_distributor_address(JITOSOL_MINT, 812).unwrap());
    assert_eq!(
        flow.claim_status,
        h.claim_status_address(key(2), flow.distributor).unwrap()
    );
    assert_eq!(
        flow.claimant_token_account,
        associated_token_address(&key(2), &JITOSOL_MINT, &TOKEN_PROGRAM_ID).unwrap()
    );
    assert_eq!(
        flow.distributor_token_account,
        associated_token_address(&flow.distributor, &JITOSOL_MINT, &TOKEN_PROGRAM_ID).unwrap()
    );
    let status = flow.claim_status;
    let (flow, action) = step(&h, flow, ClaimEvent::TreeFetched);
    assert!(matches!(action, ClaimAction::LookUpClaimStatus { address } if address == status));
    let (flow, action) = step(&h, flow, ClaimEvent::ClaimStatusLookedUp { exists: false });
    assert!(matches!(action, ClaimAction::BuildClaimInstruction));
    let (flow, action) = step(&h, flow, ClaimEvent::ClaimInstructionBuilt { claim_ix: claim_ix() });
    assert!(matches!(action, ClaimAction::ReadNonceAccount { address } if address == key(4)));
    assert_eq!(flow.instructions.len(), 3);
    assert_eq!(flow.instructions[2].program_id, key(7));
    let mut data = vec![0u8; 80];
    for i in 40..72 {
        data[i] = 0xAB;
    }
    let ixs = flow.instructions.clone();
    let (flow, action) = step(&h, flow, ClaimEvent::NonceAccountRead { data });
    match action {
        ClaimAction::PrintTransaction { text } => {
            assert_eq!(text, unsigned_transaction_text(&ixs, &key(2), &[0xAB; 32]));
        }
        _ => panic!("offline mode must print"),
    }
    assert_eq!(flow.stage, ClaimStage::AwaitPrinted);
    let (flow, action) = step(&h, flow, ClaimEvent::Printed);
    assert!(matches!(action, ClaimAction::Finish));
    assert_eq!(flow.stage, ClaimStage::Done);
}

#[test]
fn signed_claim_sends_then_fetches_status() {
    let h = handler(Some(key(1)), None, None);
    let (flow, _) = h.claim_start("testnet", 3).unwrap();
    let status = flow.claim_status;
    let (flow, _) = step(&h, flow, ClaimEvent::TreeFetched);
    let (flow, _) = step(&h, flow, ClaimEvent::ClaimStatusLookedUp { exists: false });
    let (flow, action) = step(&h, flow, ClaimEvent::ClaimInstructionBuilt { claim_ix: claim_ix() });
    assert!(matches!(action, ClaimAction::FetchLatestBlockhash));
    assert_eq!(flow.instructions.len(), 2);
    let (flow, action) = step(&h, flow, ClaimEvent::LatestBlockhash { hash: key(9) });
    assert!(matches!(action, ClaimAction::SignAndSend { blockhash } if blockhash == key(9)));
    let (flow, action) = step(&h, flow, ClaimEvent::Sent);
    assert!(matches!(action, ClaimAction::FetchClaimStatus { address } if address == status));
    let (_, action) = step(&h, flow, ClaimEvent::ClaimStatusFetched);
    assert!(matches!(action, ClaimAction::Finish));
}

#[test]
fn claim_errors() {
    let h = handler(None, None, None);
    assert!(matches!(h.claim_start("mainnet", 1), Err(HandlerError::MissingClaimant)));
    let h = handler(Some(key(1)), None, None);
    let (flow, _) = h.claim_start("mainnet", 1).unwrap();
    let (flow, _) = step(&h, flow, ClaimEvent::TreeFetched);
    assert!(matches!(
        h.claim_step(flow, ClaimEvent::ClaimStatusLookedUp { exists: true }),
        Err(HandlerError::AlreadyClaimed)
    ));
    let h = handler(None, Some(key(2)), Some(key(4)));
    let (flow, _) = h.claim_start("mainnet", 1).unwrap();
    let (flow, _) = step(&h, flow, ClaimEvent::TreeFetched);
    let (flow, _) = step(&h, flow, ClaimEvent::ClaimStatusLookedUp { exists: false });
    let (flow, _) = step(&h, flow, ClaimEvent::ClaimInstructionBuilt { claim_ix: claim_ix() });
    assert!(matches!(
        h.claim_step(flow, ClaimEvent::NonceAccountRead { data: vec![0u8; 10] }),
        Err(HandlerError::NonceDataTooShort { len: 10 })
    ));
}

#[test]
fn handle_claim_starts_on_the_network_cluster() {
    let h = handler(None, Some(key(2)), None);
    let command = BamBoostCommands::MerkleDistributor {
        action: MerkleDistributorActions::Claim { network: NetworkArg::Testnet, epoch: 9 },
    };
    match h.handle(command) {
        Ok(HandleStart::Claim { flow, action }) => {
            assert_eq!(flow.stage, ClaimStage::AwaitTree);
            assert_eq!(flow.claimant, key(2));
            match action {
                ClaimAction::FetchMerkleTree { url } => assert_eq!(
                    url,
                    "https://storage.googleapis.com/jito-bam-boost/testnet/9/merkle_tree.json"
                ),
                _ => panic!("expected a merkle tree fetch"),
            }
        }
        _ => panic!("expected a claim to start"),
    }
}

#[test]
fn handle_claim_without_claimant_fails() {
    let h = handler(None, None, None);
    let command = BamBoostCommands::MerkleDistributor {
        action: MerkleDistributorActions::Claim { network: NetworkArg::Mainnet, epoch: 9 },
    };
    assert!(matches!(h.handle(command), Err(HandlerError::MissingClaimant)));
}

#[test]
fn handle_claim_status_get_shows_the_status_account() {
    let h = handler(None, None, None);
    let command = BamBoostCommands::ClaimStatus {
        action: ClaimStatusActions::Get { epoch: 812, claimant: key(3) },
    };
    let distributor = h.merkle_distributor_address(JITOSOL_MINT, 812).unwrap();
    let expected = h.claim_status_address(key(3), distributor).unwrap();
    match h.handle(command) {
        Ok(HandleStart::ShowClaimStatus { address }) => {
            assert_eq!(address, expected);
            assert_ne!(address, distributor);
        }
        _ => panic!("expected the claim status account"),
    }
}
