//! The decisions of a claim, as a state machine: the caller performs each
//! action (network, signing, printing) and reports what came of it.

use vstd::prelude::*;
use crate::bam_boost::{BamBoostCommands, ClaimStatusActions, MerkleDistributorActions};
use crate::claim_laws::{
    acts_on_blockhash, asks_for_blockhash_source, claim_accounts, network_tree_url, starts_by_fetching, starts_claim_by_fetching,
};
use crate::handler::{
    network_name, spec_network_name, pda_of, spec_associated_token_address, spec_claim_instructions, spec_merkle_tree_url,
    spec_parse_nonce_hash, claim_status_seeds, merkle_distributor_seeds, associated_token_address,
    merkle_tree_url, BamBoostCliHandler, HandlerError,
};
use crate::address::spec_try_find_program_address;
use crate::instruction::{Instruction, InstructionView};
use crate::programs::{token_program_id, JITOSOL_MINT, TOKEN_PROGRAM_ID};
use crate::transaction::{account_mentions, data_fits, spec_unsigned_transaction_text, unsigned_transaction_text};

verus! {

/// Where a claim stands: what it waits for.
#[derive(Clone, Copy, Debug, PartialEq, Eq, Structural)]
pub enum ClaimStage {
    AwaitTree,
    AwaitStatusLookup,
    AwaitClaimInstruction,
    AwaitNonceData,
    AwaitLatestBlockhash,
    AwaitPrinted,
    AwaitSent,
    AwaitClaimStatus,
    Done,
}

/// A claim in progress: its stage, the accounts it uses and, once built, its
/// instructions.
pub struct ClaimFlow {
    pub stage: ClaimStage,
    pub claimant: [u8; 32],
    pub distributor: [u8; 32],
    pub distributor_token_account: [u8; 32],
    pub claim_status: [u8; 32],
    pub claimant_token_account: [u8; 32],
    pub instructions: Vec<Instruction>,
}

pub struct ClaimFlowView {
    pub stage: ClaimStage,
    pub claimant: [u8; 32],
    pub distributor: [u8; 32],
    pub distributor_token_account: [u8; 32],
    pub claim_status: [u8; 32],
    pub claimant_token_account: [u8; 32],
    pub instructions: Seq<InstructionView>,
}

impl View for ClaimFlow {
    type V = ClaimFlowView;

    open spec fn view(&self) -> ClaimFlowView {
        ClaimFlowView {
            stage: self.stage,
            claimant: self.claimant,
            distributor: self.distributor,
            distributor_token_account: self.distributor_token_account,
            claim_status: self.claim_status,
            claimant_token_account: self.claimant_token_account,
            instructions: self.instructions@.map_values(|ix: Instruction| ix@),
        }
    }
}

/// What the caller reports.
pub enum ClaimEvent {
    /// The merkle tree was downloaded and parsed.
    TreeFetched,
    /// Whether the claim status account exists.
    ClaimStatusLookedUp { exists: bool },
    /// The claim instruction for the claimant's merkle node (its program is
    /// set to the handler's BAM Boost program).
    ClaimInstructionBuilt { claim_ix: Instruction },
    /// The raw data of the durable nonce account.
    NonceAccountRead { data: Vec<u8> },
    /// The latest blockhash of the cluster.
    LatestBlockhash { hash: [u8; 32] },
    /// The unsigned transaction was printed.
    Printed,
    /// The signed transaction was sent and confirmed.
    Sent,
    /// The claim status account was fetched.
    ClaimStatusFetched,
}

pub enum ClaimEventView {
    TreeFetched,
    ClaimStatusLookedUp { exists: bool },
    ClaimInstructionBuilt { claim_ix: InstructionView },
    NonceAccountRead { data: Seq<u8> },
    LatestBlockhash { hash: [u8; 32] },
    Printed,
    Sent,
    ClaimStatusFetched,
}

impl View for ClaimEvent {
    type V = ClaimEventView;

    open spec fn view(&self) -> ClaimEventView {
        match self {
            ClaimEvent::TreeFetched => ClaimEventView::TreeFetched,
            ClaimEvent::ClaimStatusLookedUp { exists } => ClaimEventView::ClaimStatusLookedUp { exists: *exists },
            ClaimEvent::ClaimInstructionBuilt { claim_ix } => ClaimEventView::ClaimInstructionBuilt { claim_ix: claim_ix@ },
            ClaimEvent::NonceAccountRead { data } => ClaimEventView::NonceAccountRead { data: data@ },
            ClaimEvent::LatestBlockhash { hash } => ClaimEventView::LatestBlockhash { hash: *hash },
            ClaimEvent::Printed => ClaimEventView::Printed,
            ClaimEvent::Sent => ClaimEventView::Sent,
            ClaimEvent::ClaimStatusFetched => ClaimEventView::ClaimStatusFetched,
        }
    }
}

/// What the caller does next.
pub enum ClaimAction {
    /// Download and parse the merkle tree at the URL.
    FetchMerkleTree { url: String },
    /// Ask whether the claim status account exists.
    LookUpClaimStatus { address: [u8; 32] },
    /// Build the claim instruction from the claimant's merkle node.
    BuildClaimInstruction,
    /// Read the durable nonce account.
    ReadNonceAccount { address: [u8; 32] },
    /// Ask for the latest blockhash.
    FetchLatestBlockhash,
    /// Print the unsigned transaction text instead of sending.
    PrintTransaction { text: String },
    /// Sign the flow's instructions with the signer as fee payer and send them.
    SignAndSend { blockhash: [u8; 32] },
    /// Fetch and show the claim status account.
    FetchClaimStatus { address: [u8; 32] },
    /// The claim is complete.
    Finish,
}

pub enum ClaimActionView {
    FetchMerkleTree { url: Seq<char> },
    LookUpClaimStatus { address: [u8; 32] },
    BuildClaimInstruction,
    ReadNonceAccount { address: [u8; 32] },
    FetchLatestBlockhash,
    PrintTransaction { text: Seq<char> },
    SignAndSend { blockhash: [u8; 32] },
    FetchClaimStatus { address: [u8; 32] },
    Finish,
}

impl View for ClaimAction {
    type V = ClaimActionView;

    open spec fn view(&self) -> ClaimActionView {
        match self {
            ClaimAction::FetchMerkleTree { url } => ClaimActionView::FetchMerkleTree { url: url@ },
            ClaimAction::LookUpClaimStatus { address } => ClaimActionView::LookUpClaimStatus { address: *address },
            ClaimAction::BuildClaimInstruction => ClaimActionView::BuildClaimInstruction,
            ClaimAction::ReadNonceAccount { address } => ClaimActionView::ReadNonceAccount { address: *address },
            ClaimAction::FetchLatestBlockhash => ClaimActionView::FetchLatestBlockhash,
            ClaimAction::PrintTransaction { text } => ClaimActionView::PrintTransaction { text: text@ },
            ClaimAction::SignAndSend { blockhash } => ClaimActionView::SignAndSend { blockhash: *blockhash },
            ClaimAction::FetchClaimStatus { address } => ClaimActionView::FetchClaimStatus { address: *address },
            ClaimAction::Finish => ClaimActionView::Finish,
        }
    }
}

/// The result of a claim decision.
pub open spec fn step_view(r: Result<(ClaimFlow, ClaimAction), HandlerError>) -> Result<
    (ClaimFlowView, ClaimActionView),
    HandlerError,
> {
    match r {
        Ok((f, a)) => Ok((f@, a@)),
        Err(e) => Err(e),
    }
}

/// A claim starts from the claimant and the program derived accounts: the
/// merkle distributor of the JitoSOL mint and epoch, its token account, the
/// claimant's claim status, the claimant's token account; then the merkle tree
/// of the cluster and epoch is fetched.
pub open spec fn spec_claim_start(h: BamBoostCliHandler, cluster: Seq<char>, epoch: u64) -> Result<
    (ClaimFlowView, ClaimActionView),
    HandlerError,
> {
    match h.spec_resolve_claimant() {
        Err(e) => Err(e),
        Ok(claimant) => {
            let distributor = pda_of(spec_try_find_program_address(
                merkle_distributor_seeds(JITOSOL_MINT, epoch),
                h.bam_boost_program_id@,
            ));
            let distributor_ata = match distributor {
                Some(d) => spec_associated_token_address(d, JITOSOL_MINT, TOKEN_PROGRAM_ID),
                None => None,
            };
            let claim_status = match distributor {
                Some(d) => pda_of(spec_try_find_program_address(
                    claim_status_seeds(claimant, d),
                    h.bam_boost_program_id@,
                )),
                None => None,
            };
            let claimant_ata = spec_associated_token_address(claimant, JITOSOL_MINT, TOKEN_PROGRAM_ID);
            if distributor is Some && distributor_ata is Some && claim_status is Some && claimant_ata is Some {
                Ok((
                    ClaimFlowView {
                        stage: ClaimStage::AwaitTree,
                        claimant,
                        distributor: distributor->0,
                        distributor_token_account: distributor_ata->0,
                        claim_status: claim_status->0,
                        claimant_token_account: claimant_ata->0,
                        instructions: Seq::empty(),
                    },
                    ClaimActionView::FetchMerkleTree { url: spec_merkle_tree_url(cluster, epoch) },
                ))
            } else {
                Err(HandlerError::NoViableBumpSeed)
            }
        },
    }
}

/// The event that each stage waits for.
pub open spec fn event_fits(stage: ClaimStage, e: ClaimEventView) -> bool {
    match stage {
        ClaimStage::AwaitTree => e is TreeFetched,
        ClaimStage::AwaitStatusLookup => e is ClaimStatusLookedUp,
        ClaimStage::AwaitClaimInstruction => e is ClaimInstructionBuilt,
        ClaimStage::AwaitNonceData => e is NonceAccountRead,
        ClaimStage::AwaitLatestBlockhash => e is LatestBlockhash,
        ClaimStage::AwaitPrinted => e is Printed,
        ClaimStage::AwaitSent => e is Sent,
        ClaimStage::AwaitClaimStatus => e is ClaimStatusFetched,
        ClaimStage::Done => false,
    }
}

/// Once the blockhash is known: print the unsigned transaction (print mode)
/// or sign and send it.
pub open spec fn spec_after_blockhash(h: BamBoostCliHandler, f: ClaimFlowView, hash: [u8; 32]) -> (
    ClaimFlowView,
    ClaimActionView,
) {
    if h.spec_should_print_tx() {
        (
            ClaimFlowView { stage: ClaimStage::AwaitPrinted, ..f },
            ClaimActionView::PrintTransaction {
                text: spec_unsigned_transaction_text(f.instructions, f.claimant, hash),
            },
        )
    } else {
        (ClaimFlowView { stage: ClaimStage::AwaitSent, ..f }, ClaimActionView::SignAndSend { blockhash: hash })
    }
}

/// One decision of a claim.
pub open spec fn spec_claim_step(h: BamBoostCliHandler, f: ClaimFlowView, e: ClaimEventView) -> Result<
    (ClaimFlowView, ClaimActionView),
    HandlerError,
> {
    match e {
        ClaimEventView::TreeFetched => Ok((
            ClaimFlowView { stage: ClaimStage::AwaitStatusLookup, ..f },
            ClaimActionView::LookUpClaimStatus { address: f.claim_status },
        )),
        ClaimEventView::ClaimStatusLookedUp { exists } => if exists {
            Err(HandlerError::AlreadyClaimed)
        } else {
            Ok((
                ClaimFlowView { stage: ClaimStage::AwaitClaimInstruction, ..f },
                ClaimActionView::BuildClaimInstruction,
            ))
        },
        ClaimEventView::ClaimInstructionBuilt { claim_ix } => match spec_associated_token_address(
            f.claimant,
            JITOSOL_MINT,
            TOKEN_PROGRAM_ID,
        ) {
            None => Err(HandlerError::NoViableBumpSeed),
            Some(ata) => {
                let ixs = spec_claim_instructions(h, f.claimant, with_program(claim_ix, h.bam_boost_program_id), ata);
                if !h.spec_should_print_tx() && h.cli_config.signer is None {
                    Err(HandlerError::SignerRequired)
                } else {
                    match h.nonce {
                        Some(n) => Ok((
                            ClaimFlowView { stage: ClaimStage::AwaitNonceData, instructions: ixs, ..f },
                            ClaimActionView::ReadNonceAccount { address: n },
                        )),
                        None => Ok((
                            ClaimFlowView { stage: ClaimStage::AwaitLatestBlockhash, instructions: ixs, ..f },
                            ClaimActionView::FetchLatestBlockhash,
                        )),
                    }
                }
            },
        },
        ClaimEventView::NonceAccountRead { data } => match spec_parse_nonce_hash(data) {
            Err(err) => Err(err),
            Ok(hash) => Ok(spec_after_blockhash(h, f, array_of(hash))),
        },
        ClaimEventView::LatestBlockhash { hash } => Ok(spec_after_blockhash(h, f, hash)),
        ClaimEventView::Printed => Ok((ClaimFlowView { stage: ClaimStage::Done, ..f }, ClaimActionView::Finish)),
        ClaimEventView::Sent => Ok((
            ClaimFlowView { stage: ClaimStage::AwaitClaimStatus, ..f },
            ClaimActionView::FetchClaimStatus { address: f.claim_status },
        )),
        ClaimEventView::ClaimStatusFetched => Ok((
            ClaimFlowView { stage: ClaimStage::Done, ..f },
            ClaimActionView::Finish,
        )),
    }
}

/// The instruction with its program replaced.
pub open spec fn with_program(ix: InstructionView, program_id: [u8; 32]) -> InstructionView {
    (program_id@, ix.1, ix.2)
}

/// The 32-byte array holding a 32-byte sequence.
pub open spec fn array_of(s: Seq<u8>) -> [u8; 32] {
    choose|a: [u8; 32]| a@ == s
}

/// The instructions built once the stage is past the claim instruction fit
/// in one message.
pub open spec fn flow_wf(f: ClaimFlowView) -> bool {
    account_mentions(f.instructions) <= 255 && data_fits(f.instructions)
}


pub proof fn lemma_array_of(a: [u8; 32])
    ensures
        array_of(a@) == a,
{
    let b = array_of(a@);
    assert(b@ == a@);
    assert(b =~= a) by {
        assert forall|i: int| 0 <= i < 32 implies b[i] == a[i] by {
            assert(b@[i] == a@[i]);
        }
    }
}

proof fn lemma_mentions_push(ixs: Seq<InstructionView>, ix: InstructionView)
    ensures
        account_mentions(ixs.push(ix)) == account_mentions(ixs) + ix.1.len() + 1,
{
    assert(ixs.push(ix).drop_last() =~= ixs);
}

proof fn lemma_claim_mentions(h: BamBoostCliHandler, claimant: [u8; 32], claim_ix: InstructionView, ata: [u8; 32])
    requires
        claim_ix.1.len() <= 240,
        claim_ix.2.len() <= u16::MAX,
    ensures
        account_mentions(spec_claim_instructions(h, claimant, claim_ix, ata)) <= 255,
        data_fits(spec_claim_instructions(h, claimant, claim_ix, ata)),
{
    let e = Seq::<InstructionView>::empty();
    let n = match h.nonce {
        Some(n) => seq![crate::programs::spec_advance_nonce_ix(n, match h.nonce_authority { Some(a) => a, None => n })],
        None => e,
    };
    let g = match h.assert_deploy_slot {
        Some(slot) => seq![crate::lighthouse::spec_assert_deploy_slot_ix(slot)],
        None => e,
    };
    let ata_ix = crate::programs::spec_create_ata_idempotent_ix(claimant, claimant, JITOSOL_MINT, TOKEN_PROGRAM_ID, ata);
    let ng = n + g;
    if h.nonce is Some {
        lemma_mentions_push(e, n[0]);
        assert(e.push(n[0]) =~= n);
    }
    if h.assert_deploy_slot is Some {
        lemma_mentions_push(n, g[0]);
        assert(n.push(g[0]) =~= ng);
    } else {
        assert(ng =~= n);
    }
    assert(account_mentions(ng) <= 7);
    lemma_mentions_push(ng, ata_ix);
    lemma_mentions_push(ng.push(ata_ix), claim_ix);
    let all = ng.push(ata_ix).push(claim_ix);
    assert(spec_claim_instructions(h, claimant, claim_ix, ata) =~= all);
    if h.assert_deploy_slot is Some {
        vstd::bytes::lemma_auto_spec_u64_to_from_le_bytes();
        assert(g[0].2.len() == 13);
    }
    assert forall|i: int| 0 <= i < all.len() implies #[trigger] all[i].2.len() <= u16::MAX by {
        if i < n.len() {
            assert(all[i] == n[i]);
        } else if i < ng.len() {
            assert(all[i] == g[i - n.len()]);
        }
    }
}

impl BamBoostCliHandler {
    /// Start a claim of an epoch's subsidy on a cluster.
    pub fn claim_start(&self, cluster: &str, epoch: u64) -> (r: Result<(ClaimFlow, ClaimAction), HandlerError>)
        ensures
            step_view(r) == spec_claim_start(*self, cluster@, epoch),
            r matches Ok((f, _)) ==> flow_wf(f@),
            starts_by_fetching(step_view(r), spec_merkle_tree_url(cluster@, epoch)),
            r matches Ok((f, _)) ==> claim_accounts(*self, epoch, f@),
            self.cli_config.signer is None && self.cli_config.address is None ==> r matches Err(
                HandlerError::MissingClaimant,
            ),
    {
        let claimant = match self.resolve_claimant() {
            Ok(c) => c,
            Err(e) => {
                return Err(e);
            },
        };
        let distributor = self.merkle_distributor_address(JITOSOL_MINT, epoch);
        let token_program = token_program_id();
        let distributor_ata = match &distributor {
            Some(d) => associated_token_address(d, &JITOSOL_MINT, &token_program),
            None => None,
        };
        let claim_status = match &distributor {
            Some(d) => self.claim_status_address(claimant, *d),
            None => None,
        };
        let claimant_ata = associated_token_address(&claimant, &JITOSOL_MINT, &token_program);
        match (distributor, distributor_ata, claim_status, claimant_ata) {
            (Some(d), Some(da), Some(cs), Some(ca)) => {
                let url = merkle_tree_url(cluster, epoch);
                let flow = ClaimFlow {
                    stage: ClaimStage::AwaitTree,
                    claimant,
                    distributor: d,
                    distributor_token_account: da,
                    claim_status: cs,
                    claimant_token_account: ca,
                    instructions: Vec::new(),
                };
                assert(flow@.instructions =~= Seq::<InstructionView>::empty());
                Ok((flow, ClaimAction::FetchMerkleTree { url }))
            },
            _ => Err(HandlerError::NoViableBumpSeed),
        }
    }

    fn after_blockhash(&self, flow: ClaimFlow, hash: [u8; 32]) -> (r: (ClaimFlow, ClaimAction))
        requires
            flow_wf(flow@),
        ensures
            (r.0@, r.1@) == spec_after_blockhash(*self, flow@, hash),
            flow_wf(r.0@),
    {
        if self.should_print_tx() {
            let text = unsigned_transaction_text(&flow.instructions, &flow.claimant, &hash);
            let ClaimFlow { stage: _, claimant, distributor, distributor_token_account, claim_status, claimant_token_account, instructions } = flow;
            (
                ClaimFlow { stage: ClaimStage::AwaitPrinted, claimant, distributor, distributor_token_account, claim_status, claimant_token_account, instructions },
                ClaimAction::PrintTransaction { text },
            )
        } else {
            let ClaimFlow { stage: _, claimant, distributor, distributor_token_account, claim_status, claimant_token_account, instructions } = flow;
            (
                ClaimFlow { stage: ClaimStage::AwaitSent, claimant, distributor, distributor_token_account, claim_status, claimant_token_account, instructions },
                ClaimAction::SignAndSend { blockhash: hash },
            )
        }
    }

    /// Take one claim decision on what the caller reports.
    pub fn claim_step(&self, flow: ClaimFlow, event: ClaimEvent) -> (r: Result<(ClaimFlow, ClaimAction), HandlerError>)
        requires
            event_fits(flow.stage, event@),
            flow_wf(flow@),
            event matches ClaimEvent::ClaimInstructionBuilt { claim_ix } ==> claim_ix.accounts@.len() <= 240
                && claim_ix.data@.len() <= u16::MAX,
        ensures
            step_view(r) == spec_claim_step(*self, flow@, event@),
            r matches Ok((f, _)) ==> flow_wf(f@),
            event@ matches ClaimEventView::LatestBlockhash { hash } ==> acts_on_blockhash(*self, flow@, hash, step_view(r)),
            event@ matches ClaimEventView::NonceAccountRead { data } ==> (r is Err <==> data.len() < 72),
            event@ matches ClaimEventView::NonceAccountRead { data } ==> (r is Ok ==> exists|b: [u8; 32]|
                b@ == data.subrange(40, 72) && #[trigger] acts_on_blockhash(*self, flow@, b, step_view(r))),
            event@ is ClaimInstructionBuilt ==> asks_for_blockhash_source(*self, step_view(r)),
    {
        proof {
            match event@ {
                ClaimEventView::LatestBlockhash { hash } => {
                    crate::claim_laws::law_latest_blockhash_prints_or_sends(*self, flow@, hash);
                },
                ClaimEventView::ClaimInstructionBuilt { claim_ix } => {
                    crate::claim_laws::law_nonce_account_read_before_blockhash(*self, flow@, claim_ix);
                },
                _ => {},
            }
        }
        let ghost fv = flow@;
        let ClaimFlow { stage, claimant, distributor, distributor_token_account, claim_status, claimant_token_account, instructions } = flow;
        match event {
            ClaimEvent::TreeFetched => Ok((
                ClaimFlow { stage: ClaimStage::AwaitStatusLookup, claimant, distributor, distributor_token_account, claim_status, claimant_token_account, instructions },
                ClaimAction::LookUpClaimStatus { address: claim_status },
            )),
            ClaimEvent::ClaimStatusLookedUp { exists } => {
                if exists {
                    Err(HandlerError::AlreadyClaimed)
                } else {
                    Ok((
                        ClaimFlow { stage: ClaimStage::AwaitClaimInstruction, claimant, distributor, distributor_token_account, claim_status, claimant_token_account, instructions },
                        ClaimAction::BuildClaimInstruction,
                    ))
                }
            },
            ClaimEvent::ClaimInstructionBuilt { claim_ix } => {
                let mut claim_ix = claim_ix;
                claim_ix.program_id = self.bam_boost_program_id;
                let ghost civ = claim_ix@;
                match self.claim_instructions(claimant, claim_ix) {
                    Err(e) => Err(e),
                    Ok(ixs) => {
                        proof {
                            let ata = spec_associated_token_address(claimant, JITOSOL_MINT, TOKEN_PROGRAM_ID)->0;
                            assert(civ.1.len() <= 240);
                            assert(civ.2.len() <= u16::MAX);
                            lemma_claim_mentions(*self, claimant, civ, ata);
                        }
                        if !self.should_print_tx() && self.cli_config.signer.is_none() {
                            return Err(HandlerError::SignerRequired);
                        }
                        match &self.nonce {
                            Some(n) => Ok((
                                ClaimFlow { stage: ClaimStage::AwaitNonceData, claimant, distributor, distributor_token_account, claim_status, claimant_token_account, instructions: ixs },
                                ClaimAction::ReadNonceAccount { address: *n },
                            )),
                            None => Ok((
                                ClaimFlow { stage: ClaimStage::AwaitLatestBlockhash, claimant, distributor, distributor_token_account, claim_status, claimant_token_account, instructions: ixs },
                                ClaimAction::FetchLatestBlockhash,
                            )),
                        }
                    },
                }
            },
            ClaimEvent::NonceAccountRead { data } => {
                match BamBoostCliHandler::parse_nonce_hash(data.as_slice()) {
                    Err(e) => Err(e),
                    Ok(hash) => {
                        proof {
                            lemma_array_of(hash);
                            crate::claim_laws::law_nonce_hash_is_the_blockhash(*self, fv, data@, hash);
                        }
                        let f = ClaimFlow { stage, claimant, distributor, distributor_token_account, claim_status, claimant_token_account, instructions };
                        Ok(self.after_blockhash(f, hash))
                    },
                }
            },
            ClaimEvent::LatestBlockhash { hash } => {
                let f = ClaimFlow { stage, claimant, distributor, distributor_token_account, claim_status, claimant_token_account, instructions };
                Ok(self.after_blockhash(f, hash))
            },
            ClaimEvent::Printed => Ok((
                ClaimFlow { stage: ClaimStage::Done, claimant, distributor, distributor_token_account, claim_status, claimant_token_account, instructions },
                ClaimAction::Finish,
            )),
            ClaimEvent::Sent => Ok((
                ClaimFlow { stage: ClaimStage::AwaitClaimStatus, claimant, distributor, distributor_token_account, claim_status, claimant_token_account, instructions },
                ClaimAction::FetchClaimStatus { address: claim_status },
            )),
            ClaimEvent::ClaimStatusFetched => Ok((
                ClaimFlow { stage: ClaimStage::Done, claimant, distributor, distributor_token_account, claim_status, claimant_token_account, instructions },
                ClaimAction::Finish,
            )),
        }
    }
}

/// What a `bam-boost` command starts.
pub enum HandleStart {
    /// A claim, with the first action the caller performs.
    Claim { flow: ClaimFlow, action: ClaimAction },
    /// Show the claim status account at this address.
    ShowClaimStatus { address: [u8; 32] },
}

pub enum HandleStartView {
    Claim { flow: ClaimFlowView, action: ClaimActionView },
    ShowClaimStatus { address: [u8; 32] },
}

impl View for HandleStart {
    type V = HandleStartView;

    open spec fn view(&self) -> HandleStartView {
        match self {
            HandleStart::Claim { flow, action } => HandleStartView::Claim { flow: flow@, action: action@ },
            HandleStart::ShowClaimStatus { address } => HandleStartView::ShowClaimStatus { address: *address },
        }
    }
}

pub open spec fn handle_view(r: Result<HandleStart, HandlerError>) -> Result<HandleStartView, HandlerError> {
    match r {
        Ok(s) => Ok(s@),
        Err(e) => Err(e),
    }
}

/// A claim starts on the cluster named by its network; `claim-status get`
/// shows the claimant's claim status under the merkle distributor of the
/// JitoSOL mint and epoch.
pub open spec fn spec_handle(h: BamBoostCliHandler, command: BamBoostCommands) -> Result<HandleStartView, HandlerError> {
    match command {
        BamBoostCommands::MerkleDistributor { action: MerkleDistributorActions::Claim { network, epoch } } => {
            match spec_claim_start(h, spec_network_name(network), epoch) {
                Ok((flow, action)) => Ok(HandleStartView::Claim { flow, action }),
                Err(e) => Err(e),
            }
        },
        BamBoostCommands::ClaimStatus { action: ClaimStatusActions::Get { epoch, claimant } } => {
            let distributor = pda_of(spec_try_find_program_address(
                merkle_distributor_seeds(JITOSOL_MINT, epoch),
                h.bam_boost_program_id@,
            ));
            let status = match distributor {
                Some(d) => pda_of(spec_try_find_program_address(claim_status_seeds(claimant, d), h.bam_boost_program_id@)),
                None => None,
            };
            match status {
                Some(address) => Ok(HandleStartView::ShowClaimStatus { address }),
                None => Err(HandlerError::NoViableBumpSeed),
            }
        },
    }
}

impl BamBoostCliHandler {
    /// Start a `bam-boost` command.
    pub fn handle(&self, command: BamBoostCommands) -> (r: Result<HandleStart, HandlerError>)
        ensures
            handle_view(r) == spec_handle(*self, command),
            r matches Ok(HandleStart::Claim { flow, .. }) ==> flow_wf(flow@),
            command matches BamBoostCommands::MerkleDistributor { action: MerkleDistributorActions::Claim { network, epoch } }
                ==> starts_claim_by_fetching(handle_view(r), network_tree_url(network, epoch)),
            command is ClaimStatus ==> (r matches Ok(s) ==> s is ShowClaimStatus),
    {
        match command {
            BamBoostCommands::MerkleDistributor { action: MerkleDistributorActions::Claim { network, epoch } } => {
                match self.claim_start(network_name(network), epoch) {
                    Ok((flow, action)) => Ok(HandleStart::Claim { flow, action }),
                    Err(e) => Err(e),
                }
            },
            BamBoostCommands::ClaimStatus { action: ClaimStatusActions::Get { epoch, claimant } } => {
                match self.claim_status_pda_of_epoch(epoch, claimant) {
                    Some(address) => Ok(HandleStart::ShowClaimStatus { address }),
                    None => Err(HandlerError::NoViableBumpSeed),
                }
            },
        }
    }
}

} // verus!
