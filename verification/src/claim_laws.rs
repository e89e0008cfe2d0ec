//! Laws of the claim's decisions, stated over the handler's options and the
//! outside results they rest on: when a claim prints and when it sends, which
//! blockhash it uses, which merkle tree it fetches, how the network option is
//! read and how the printed transaction is framed.

use vstd::prelude::*;
use crate::address::spec_try_find_program_address;
use crate::bam_boost::{BamBoostCommands, MerkleDistributorActions, NetworkArg};
use crate::claim_flow::{
    spec_claim_start, spec_claim_step, spec_handle, with_program, ClaimActionView, ClaimEventView, ClaimFlowView,
    ClaimStage, HandleStartView,
};
use crate::handler::{
    claim_status_seeds, merkle_distributor_seeds, pda_of, spec_associated_token_address, spec_merkle_tree_url,
    BamBoostCliHandler, HandlerError,
};
use crate::instruction::InstructionView;
use crate::programs::{JITOSOL_MINT, TOKEN_PROGRAM_ID};
use crate::text::spec_decimal;
use crate::transaction::{framed_unsigned_text, spec_unsigned_transaction_text};

verus! {

/// The handler prints the transaction instead of signing it: `--print-tx`,
/// or `--address` given without a signer.
pub open spec fn prints_instead_of_sending(h: BamBoostCliHandler) -> bool {
    h.print_tx || (h.cli_config.signer is None && h.cli_config.address is Some)
}

/// The storage URL of an epoch's merkle tree for a network: `mainnet` or
/// `testnet` is the cluster directory.
pub open spec fn network_tree_url(network: NetworkArg, epoch: u64) -> Seq<char> {
    let cluster = match network {
        NetworkArg::Mainnet => "mainnet"@,
        NetworkArg::Testnet => "testnet"@,
    };
    "https://storage.googleapis.com/jito-bam-boost/"@ + cluster + "/"@ + spec_decimal(epoch as nat)
        + "/merkle_tree.json"@
}

/// A claim step that has the blockhash: it keeps the instructions, and prints
/// the unsigned transaction built on that blockhash when the handler prints
/// instead of sending, else signs and sends with that blockhash.
pub open spec fn acts_on_blockhash(
    h: BamBoostCliHandler,
    before: ClaimFlowView,
    hash: [u8; 32],
    r: Result<(ClaimFlowView, ClaimActionView), HandlerError>,
) -> bool {
    &&& r is Ok
    &&& r->Ok_0.0.instructions == before.instructions
    &&& r->Ok_0.0.stage == if prints_instead_of_sending(h) { ClaimStage::AwaitPrinted } else { ClaimStage::AwaitSent }
    &&& r->Ok_0.1 == if prints_instead_of_sending(h) {
        ClaimActionView::PrintTransaction { text: framed_unsigned_text(before.instructions, before.claimant, hash) }
    } else {
        ClaimActionView::SignAndSend { blockhash: hash }
    }
}

/// A claim step that needs a blockhash asks for the durable nonce account
/// when the handler has one, else for the latest blockhash.
pub open spec fn asks_for_blockhash_source(h: BamBoostCliHandler, r: Result<(ClaimFlowView, ClaimActionView), HandlerError>) -> bool {
    r matches Ok((_, a)) ==> a == match h.nonce {
        Some(n) => ClaimActionView::ReadNonceAccount { address: n },
        None => ClaimActionView::FetchLatestBlockhash,
    }
}

/// A started claim waits for its merkle tree with no instructions yet, and
/// first fetches the tree at the URL.
pub open spec fn starts_by_fetching(r: Result<(ClaimFlowView, ClaimActionView), HandlerError>, url: Seq<char>) -> bool {
    r matches Ok((f, a)) ==> f.stage == ClaimStage::AwaitTree && f.instructions.len() == 0
        && a == (ClaimActionView::FetchMerkleTree { url })
}

/// The claimant: the signer's key when there is a signer, else the
/// `--address` key.
pub open spec fn claimant_of(h: BamBoostCliHandler) -> [u8; 32] {
    match h.cli_config.signer {
        Some(s) => s,
        None => h.cli_config.address->0,
    }
}

/// The accounts of a started claim: the claimant, the merkle distributor of
/// the JitoSOL mint and epoch under the handler's program, the distributor's
/// JitoSOL token account, the claimant's claim status under that distributor,
/// and the claimant's JitoSOL token account.
pub open spec fn claim_accounts(h: BamBoostCliHandler, epoch: u64, f: ClaimFlowView) -> bool {
    &&& f.claimant == claimant_of(h)
    &&& pda_of(spec_try_find_program_address(merkle_distributor_seeds(JITOSOL_MINT, epoch), h.bam_boost_program_id@))
        == Some(f.distributor)
    &&& spec_associated_token_address(f.distributor, JITOSOL_MINT, TOKEN_PROGRAM_ID) == Some(f.distributor_token_account)
    &&& pda_of(spec_try_find_program_address(claim_status_seeds(f.claimant, f.distributor), h.bam_boost_program_id@))
        == Some(f.claim_status)
    &&& spec_associated_token_address(f.claimant, JITOSOL_MINT, TOKEN_PROGRAM_ID) == Some(f.claimant_token_account)
}

/// A started command is a claim that first fetches the tree at the URL.
pub open spec fn starts_claim_by_fetching(r: Result<HandleStartView, HandlerError>, url: Seq<char>) -> bool {
    r matches Ok(s) ==> s matches HandleStartView::Claim { flow, action } && flow.stage == ClaimStage::AwaitTree
        && flow.instructions.len() == 0 && action == (ClaimActionView::FetchMerkleTree { url })
}

/// Law: the unsigned transaction text is the base58 of the required
/// signature count that compiling the message gives, that many zeroed
/// 64-byte signature slots, and the compiled message.
pub proof fn law_unsigned_text_has_one_slot_per_signer(ixs: Seq<InstructionView>, payer: [u8; 32], blockhash: [u8; 32])
    ensures
        spec_unsigned_transaction_text(ixs, payer, blockhash) == framed_unsigned_text(ixs, payer, blockhash),
{
}

/// Law: once the latest blockhash is known, a claim keeps its instructions,
/// prints the unsigned transaction built on that blockhash exactly when the
/// handler prints instead of sending, and otherwise signs and sends with that
/// blockhash.
pub proof fn law_latest_blockhash_prints_or_sends(h: BamBoostCliHandler, f: ClaimFlowView, hash: [u8; 32])
    ensures
        acts_on_blockhash(h, f, hash, spec_claim_step(h, f, ClaimEventView::LatestBlockhash { hash })),
{
}

/// Law: a durable nonce account's data shorter than 72 bytes fails the claim;
/// otherwise the hash at bytes 40 to 72 is the blockhash that the claim
/// prints its transaction with, or signs and sends with.
pub proof fn law_nonce_hash_is_the_blockhash(h: BamBoostCliHandler, f: ClaimFlowView, data: Seq<u8>, hash: [u8; 32])
    requires
        data.len() >= 72 ==> hash@ == data.subrange(40, 72),
    ensures
        data.len() < 72 ==> spec_claim_step(h, f, ClaimEventView::NonceAccountRead { data })
            == Err::<(ClaimFlowView, ClaimActionView), HandlerError>(
            HandlerError::NonceDataTooShort { len: data.len() as usize },
        ),
        data.len() >= 72 ==> acts_on_blockhash(h, f, hash, spec_claim_step(h, f, ClaimEventView::NonceAccountRead { data })),
{
    if data.len() >= 72 {
        crate::claim_flow::lemma_array_of(hash);
    }
}

/// Law: once the claim instruction is built, the claim goes on exactly when
/// the claimant's token account has an address and the handler either prints
/// or has a signer; it then reads the durable nonce account when there is one
/// (whether it will print or send) and asks for the latest blockhash only
/// when there is none. The claim instruction, under the handler's program,
/// ends the instruction list.
pub proof fn law_nonce_account_read_before_blockhash(h: BamBoostCliHandler, f: ClaimFlowView, claim_ix: InstructionView)
    ensures
        ({
            let r = spec_claim_step(h, f, ClaimEventView::ClaimInstructionBuilt { claim_ix });
            let ata = spec_associated_token_address(f.claimant, JITOSOL_MINT, TOKEN_PROGRAM_ID);
            &&& r is Ok <==> (ata is Some && (prints_instead_of_sending(h) || h.cli_config.signer is Some))
            &&& ata is None ==> r == Err::<(ClaimFlowView, ClaimActionView), HandlerError>(HandlerError::NoViableBumpSeed)
            &&& ata is Some && !prints_instead_of_sending(h) && h.cli_config.signer is None
                ==> r == Err::<(ClaimFlowView, ClaimActionView), HandlerError>(HandlerError::SignerRequired)
            &&& asks_for_blockhash_source(h, r)
            &&& r is Ok ==> r->Ok_0.0.instructions.last() == with_program(claim_ix, h.bam_boost_program_id)
        }),
{
    let ata = spec_associated_token_address(f.claimant, JITOSOL_MINT, TOKEN_PROGRAM_ID);
    if ata is Some {
        crate::laws::law_claim_instruction_order(h, f.claimant, with_program(claim_ix, h.bam_boost_program_id), ata->0);
    }
}

/// Law: a claim looks up its own claim status account once the merkle tree
/// is in; an existing account ends the claim as already claimed, a missing one
/// lets it build the claim instruction; after the claim status is fetched the
/// claim is done.
pub proof fn law_claim_status_lookup(h: BamBoostCliHandler, f: ClaimFlowView, exists: bool)
    ensures
        spec_claim_step(h, f, ClaimEventView::TreeFetched) matches Ok((g, a)) && g.stage
            == ClaimStage::AwaitStatusLookup && a == (ClaimActionView::LookUpClaimStatus { address: f.claim_status }),
        exists ==> spec_claim_step(h, f, ClaimEventView::ClaimStatusLookedUp { exists })
            == Err::<(ClaimFlowView, ClaimActionView), HandlerError>(HandlerError::AlreadyClaimed),
        !exists ==> (spec_claim_step(h, f, ClaimEventView::ClaimStatusLookedUp { exists }) matches Ok((g, a))
            && g.stage == ClaimStage::AwaitClaimInstruction && a is BuildClaimInstruction),
        spec_claim_step(h, f, ClaimEventView::ClaimStatusFetched) matches Ok((g, a)) && g.stage == ClaimStage::Done
            && a is Finish,
        spec_claim_step(h, f, ClaimEventView::Printed) matches Ok((g, a)) && g.stage == ClaimStage::Done
            && a is Finish,
{
}

/// Law: a claim that starts does so for the claimant (the signer, else the
/// `--address` key) with the accounts derived for the epoch, waiting for the
/// epoch's merkle tree; without a signer or an address it fails for want of a
/// claimant.
pub proof fn law_claim_starts_with_its_accounts(h: BamBoostCliHandler, cluster: Seq<char>, epoch: u64)
    ensures
        spec_claim_start(h, cluster, epoch) matches Ok((f, _)) ==> claim_accounts(h, epoch, f),
        starts_by_fetching(spec_claim_start(h, cluster, epoch), spec_merkle_tree_url(cluster, epoch)),
        (h.cli_config.signer is None && h.cli_config.address is None) ==> spec_claim_start(h, cluster, epoch)
            == Err::<(ClaimFlowView, ClaimActionView), HandlerError>(HandlerError::MissingClaimant),
{
}

/// Law: a merkle-distributor claim starts, when it starts, by fetching the
/// epoch's merkle tree from the directory of the chosen network (`mainnet` or
/// `testnet`); it fails for want of a claimant exactly when neither a signer
/// nor an address is given.
pub proof fn law_claim_fetches_the_network_tree(h: BamBoostCliHandler, network: NetworkArg, epoch: u64)
    ensures
        ({
            let r = spec_handle(h, BamBoostCommands::MerkleDistributor {
                action: MerkleDistributorActions::Claim { network, epoch },
            });
            &&& starts_claim_by_fetching(r, network_tree_url(network, epoch))
            &&& (r == Err::<HandleStartView, HandlerError>(HandlerError::MissingClaimant))
                <==> (h.cli_config.signer is None && h.cli_config.address is None)
        }),
{
}

/// Law: `claim-status get` shows the claimant's claim status account under
/// the merkle distributor of the JitoSOL mint and the epoch, both found under
/// the handler's program.
pub proof fn law_claim_status_get_shows_the_status_account(h: BamBoostCliHandler, epoch: u64, claimant: [u8; 32])
    ensures
        ({
            let r = spec_handle(h, BamBoostCommands::ClaimStatus {
                action: crate::bam_boost::ClaimStatusActions::Get { epoch, claimant },
            });
            let distributor = pda_of(spec_try_find_program_address(
                merkle_distributor_seeds(JITOSOL_MINT, epoch),
                h.bam_boost_program_id@,
            ));
            &&& r matches Ok(s) ==> s matches HandleStartView::ShowClaimStatus { address }
                && distributor matches Some(d)
                && pda_of(spec_try_find_program_address(claim_status_seeds(claimant, d), h.bam_boost_program_id@))
                    == Some(address)
            &&& distributor is None ==> r == Err::<HandleStartView, HandlerError>(HandlerError::NoViableBumpSeed)
        }),
{
}

} // verus!
