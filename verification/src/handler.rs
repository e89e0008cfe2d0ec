//! The BAM Boost command handler: who claims, which accounts a claim uses,
//! which instructions it sends and how the transaction is handed out.

use vstd::prelude::*;
use vstd::bytes::{spec_u64_to_le_bytes, u64_to_le_bytes, lemma_auto_spec_u64_to_from_le_bytes};
use vstd::string::StringExecFns;
use crate::address::{spec_try_find_program_address, try_find_program_address};
use crate::bam_boost::NetworkArg;
use crate::instruction::{Instruction, InstructionView};
use crate::lighthouse::{build_assert_deploy_slot_ix, spec_assert_deploy_slot_ix};
use crate::programs::{
    advance_nonce_account, ata_seeds, create_associated_token_account_idempotent, spec_advance_nonce_ix,
    spec_create_ata_idempotent_ix, token_program_id, ASSOCIATED_TOKEN_PROGRAM_ID, JITOSOL_MINT,
    TOKEN_PROGRAM_ID,
};
use crate::text::{append_decimal, spec_decimal};

verus! {

/// Configuration of the CLI that the handler reads: the RPC endpoint and
/// commitment, the public key of the signer keypair (if one was loaded) and
/// the `--address` claimant (offline mode).
pub struct CliConfig {
    pub rpc_url: String,
    pub commitment: String,
    pub signer: Option<[u8; 32]>,
    pub address: Option<[u8; 32]>,
}

/// Why a BAM Boost command failed.
#[derive(Clone, Copy, Debug, PartialEq, Eq, Structural)]
pub enum HandlerError {
    /// Either --signer or --address is required
    MissingClaimant,
    /// Nonce account data shorter than the 72 bytes that hold the nonce hash
    NonceDataTooShort { len: usize },
    /// No bump seed gives a program derived address
    NoViableBumpSeed,
    /// The claim status account already exists: the epoch was already claimed
    AlreadyClaimed,
    /// signer is required to send transactions
    SignerRequired,
}

pub struct BamBoostCliHandler {
    /// The configuration of CLI
    pub cli_config: CliConfig,
    /// The Pubkey of the Jito BAM Boost Program
    pub bam_boost_program_id: [u8; 32],
    /// This will print out the raw TX instead of running it
    pub print_tx: bool,
    /// This will print out the account information in JSON format
    pub print_json: bool,
    /// This will print out the account information in JSON format with reserved space
    pub print_json_with_reserves: bool,
    /// When set, prepend a Lighthouse AssertUpgradeableLoaderAccount instruction
    pub assert_deploy_slot: Option<u64>,
    /// Durable nonce account
    pub nonce: Option<[u8; 32]>,
    /// Nonce authority (defaults to the nonce account pubkey if not specified)
    pub nonce_authority: Option<[u8; 32]>,
}

/// The address part of a program derived address search.
pub open spec fn pda_of(r: Option<([u8; 32], u8)>) -> Option<[u8; 32]> {
    match r {
        Some((a, _)) => Some(a),
        None => None,
    }
}

/// `b"merkle_distributor"`.
pub open spec fn merkle_distributor_tag() -> Seq<u8> {
    seq![109u8, 101, 114, 107, 108, 101, 95, 100, 105, 115, 116, 114, 105, 98, 117, 116, 111, 114]
}

/// `b"claim_status"`.
pub open spec fn claim_status_tag() -> Seq<u8> {
    seq![99u8, 108, 97, 105, 109, 95, 115, 116, 97, 116, 117, 115]
}

/// Seeds of the merkle distributor of a mint and epoch.
pub open spec fn merkle_distributor_seeds(mint: [u8; 32], epoch: u64) -> Seq<Seq<u8>> {
    seq![merkle_distributor_tag(), mint@, spec_u64_to_le_bytes(epoch)]
}

/// Seeds of a claimant's claim status under a distributor.
pub open spec fn claim_status_seeds(claimant: [u8; 32], distributor: [u8; 32]) -> Seq<Seq<u8>> {
    seq![claim_status_tag(), claimant@, distributor@]
}

/// The storage URL of an epoch's merkle tree on a cluster.
pub open spec fn spec_merkle_tree_url(cluster: Seq<char>, epoch: u64) -> Seq<char> {
    "https://storage.googleapis.com/jito-bam-boost/"@ + cluster + "/"@ + spec_decimal(epoch as nat)
        + "/merkle_tree.json"@
}

/// The cluster name of a network.
pub open spec fn spec_network_name(network: NetworkArg) -> Seq<char> {
    match network {
        NetworkArg::Mainnet => "mainnet"@,
        NetworkArg::Testnet => "testnet"@,
    }
}

/// The address of a wallet's associated token account: the program derived
/// address of `[wallet, token program, mint]` under the associated token
/// account program.
pub open spec fn spec_associated_token_address(wallet: [u8; 32], mint: [u8; 32], token_program: [u8; 32]) -> Option<[u8; 32]> {
    pda_of(spec_try_find_program_address(ata_seeds(wallet, mint, token_program), ASSOCIATED_TOKEN_PROGRAM_ID@))
}

fn bytes_of(a: &[u8; 32]) -> (v: Vec<u8>)
    ensures
        v@ == a@,
{
    let mut v: Vec<u8> = Vec::new();
    let mut i: usize = 0;
    while i < 32
        invariant
            0 <= i <= 32,
            v@ =~= a@.subrange(0, i as int),
        decreases 32 - i,
    {
        v.push(a[i]);
        i = i + 1;
    }
    assert(a@.subrange(0, 32) =~= a@);
    v
}

/// The address of a wallet's associated token account for a mint.
pub fn associated_token_address(wallet: &[u8; 32], mint: &[u8; 32], token_program: &[u8; 32]) -> (r: Option<[u8; 32]>)
    ensures
        r == spec_associated_token_address(*wallet, *mint, *token_program),
{
    let mut seeds: Vec<Vec<u8>> = Vec::new();
    seeds.push(bytes_of(wallet));
    seeds.push(bytes_of(token_program));
    seeds.push(bytes_of(mint));
    assert(seeds@.map_values(|s: Vec<u8>| s@) =~= ata_seeds(*wallet, *mint, *token_program));
    match try_find_program_address(&seeds, &ASSOCIATED_TOKEN_PROGRAM_ID) {
        Some((a, _)) => Some(a),
        None => None,
    }
}

/// The cluster name under which the merkle trees of a network are stored.
pub fn network_name(network: NetworkArg) -> (s: &'static str)
    ensures
        s@ == spec_network_name(network),
{
    match network {
        NetworkArg::Mainnet => "mainnet",
        NetworkArg::Testnet => "testnet",
    }
}

/// The storage URL of an epoch's merkle tree on a cluster.
pub fn merkle_tree_url(cluster: &str, epoch: u64) -> (url: String)
    ensures
        url@ == spec_merkle_tree_url(cluster@, epoch),
{
    let mut url = String::new();
    url.append("https://storage.googleapis.com/jito-bam-boost/");
    url.append(cluster);
    url.append("/");
    append_decimal(&mut url, epoch);
    url.append("/merkle_tree.json");
    assert(url@ =~= spec_merkle_tree_url(cluster@, epoch));
    url
}

/// The instructions of a claim, in order: the durable nonce advance (which
/// must come first) when a nonce account is set, with the nonce account as
/// its own authority unless one is given; the Lighthouse deploy-slot
/// assertion when a slot is set; the idempotent creation of the claimant's
/// JitoSOL token account; the claim itself.
pub open spec fn spec_claim_instructions(
    h: BamBoostCliHandler,
    claimant: [u8; 32],
    claim_ix: InstructionView,
    claimant_ata: [u8; 32],
) -> Seq<InstructionView> {
    let nonce_ixs = match h.nonce {
        Some(n) => seq![spec_advance_nonce_ix(n, match h.nonce_authority { Some(a) => a, None => n })],
        None => Seq::<InstructionView>::empty(),
    };
    let guard_ixs = match h.assert_deploy_slot {
        Some(slot) => seq![spec_assert_deploy_slot_ix(slot)],
        None => Seq::<InstructionView>::empty(),
    };
    nonce_ixs + guard_ixs + seq![
        spec_create_ata_idempotent_ix(claimant, claimant, JITOSOL_MINT, TOKEN_PROGRAM_ID, claimant_ata),
        claim_ix,
    ]
}

/// Parse the stored nonce hash from a nonce account's raw data: 4 bytes
/// version, 4 bytes state, 32 bytes authority, then the 32-byte blockhash at
/// offset 40.
pub open spec fn spec_parse_nonce_hash(data: Seq<u8>) -> Result<Seq<u8>, HandlerError> {
    if data.len() < 72 {
        Err(HandlerError::NonceDataTooShort { len: data.len() as usize })
    } else {
        Ok(data.subrange(40, 72))
    }
}

impl BamBoostCliHandler {
    pub fn new(
        cli_config: CliConfig,
        bam_boost_program_id: [u8; 32],
        print_tx: bool,
        print_json: bool,
        print_json_with_reserves: bool,
        assert_deploy_slot: Option<u64>,
        nonce: Option<[u8; 32]>,
        nonce_authority: Option<[u8; 32]>,
    ) -> (h: Self)
        ensures
            h.cli_config == cli_config,
            h.bam_boost_program_id == bam_boost_program_id,
            h.print_tx == print_tx,
            h.print_json == print_json,
            h.print_json_with_reserves == print_json_with_reserves,
            h.assert_deploy_slot == assert_deploy_slot,
            h.nonce == nonce,
            h.nonce_authority == nonce_authority,
    {
        Self {
            cli_config,
            bam_boost_program_id,
            print_tx,
            print_json,
            print_json_with_reserves,
            assert_deploy_slot,
            nonce,
            nonce_authority,
        }
    }

    /// Offline (unsigned) mode: `--address` without `--signer`.
    pub open spec fn spec_is_offline(&self) -> bool {
        self.cli_config.signer is None && self.cli_config.address is Some
    }

    /// The transaction is printed instead of being signed and sent.
    pub open spec fn spec_should_print_tx(&self) -> bool {
        self.print_tx || self.spec_is_offline()
    }

    /// The claimant: the signer's key, else the `--address` key.
    pub open spec fn spec_resolve_claimant(&self) -> Result<[u8; 32], HandlerError> {
        match (self.cli_config.signer, self.cli_config.address) {
            (Some(s), _) => Ok(s),
            (None, Some(a)) => Ok(a),
            (None, None) => Err(HandlerError::MissingClaimant),
        }
    }

    /// Resolve the claimant pubkey: either from a signer keypair or from --address.
    pub fn resolve_claimant(&self) -> (r: Result<[u8; 32], HandlerError>)
        ensures
            r == self.spec_resolve_claimant(),
    {
        if let Some(signer) = &self.cli_config.signer {
            Ok(*signer)
        } else if let Some(address) = &self.cli_config.address {
            Ok(*address)
        } else {
            Err(HandlerError::MissingClaimant)
        }
    }

    /// Whether we are in unsigned/offline mode (--address without --signer).
    pub fn is_offline(&self) -> (r: bool)
        ensures
            r == self.spec_is_offline(),
    {
        self.cli_config.signer.is_none() && self.cli_config.address.is_some()
    }

    /// Whether we should print the transaction instead of signing/sending.
    pub fn should_print_tx(&self) -> (r: bool)
        ensures
            r == self.spec_should_print_tx(),
    {
        self.print_tx || self.is_offline()
    }

    /// The merkle distributor of a mint and epoch: the program derived address
    /// of `["merkle_distributor", mint, epoch as 8 little-endian bytes]`.
    pub fn merkle_distributor_address(&self, jitosol_mint: [u8; 32], epoch: u64) -> (r: Option<[u8; 32]>)
        ensures
            r == pda_of(spec_try_find_program_address(
                merkle_distributor_seeds(jitosol_mint, epoch),
                self.bam_boost_program_id@,
            )),
    {
        proof {
            lemma_auto_spec_u64_to_from_le_bytes();
        }
        let mut seeds: Vec<Vec<u8>> = Vec::new();
        seeds.push(vec![109u8, 101, 114, 107, 108, 101, 95, 100, 105, 115, 116, 114, 105, 98, 117, 116, 111, 114]);
        seeds.push(bytes_of(&jitosol_mint));
        seeds.push(u64_to_le_bytes(epoch));
        assert(seeds@.map_values(|s: Vec<u8>| s@) =~= merkle_distributor_seeds(jitosol_mint, epoch));
        match try_find_program_address(&seeds, &self.bam_boost_program_id) {
            Some((a, _)) => Some(a),
            None => None,
        }
    }

    /// A claimant's claim status account under a distributor: the program
    /// derived address of `["claim_status", claimant, distributor]`.
    pub fn claim_status_address(&self, claimant: [u8; 32], distributor_pda: [u8; 32]) -> (r: Option<[u8; 32]>)
        ensures
            r == pda_of(spec_try_find_program_address(
                claim_status_seeds(claimant, distributor_pda),
                self.bam_boost_program_id@,
            )),
    {
        let mut seeds: Vec<Vec<u8>> = Vec::new();
        seeds.push(vec![99u8, 108, 97, 105, 109, 95, 115, 116, 97, 116, 117, 115]);
        seeds.push(bytes_of(&claimant));
        seeds.push(bytes_of(&distributor_pda));
        assert(seeds@.map_values(|s: Vec<u8>| s@) =~= claim_status_seeds(claimant, distributor_pda));
        match try_find_program_address(&seeds, &self.bam_boost_program_id) {
            Some((a, _)) => Some(a),
            None => None,
        }
    }

    /// The claim status account that `claim-status get` shows: the claimant's
    /// claim status under the merkle distributor of the JitoSOL mint and epoch.
    pub fn claim_status_pda_of_epoch(&self, epoch: u64, claimant: [u8; 32]) -> (r: Option<[u8; 32]>)
        ensures
            r == match pda_of(spec_try_find_program_address(
                merkle_distributor_seeds(JITOSOL_MINT, epoch),
                self.bam_boost_program_id@,
            )) {
                Some(d) => pda_of(spec_try_find_program_address(
                    claim_status_seeds(claimant, d),
                    self.bam_boost_program_id@,
                )),
                None => None,
            },
    {
        match self.merkle_distributor_address(JITOSOL_MINT, epoch) {
            Some(d) => self.claim_status_address(claimant, d),
            None => None,
        }
    }

    /// Parse the stored nonce hash from a nonce account's raw data.
    pub fn parse_nonce_hash(data: &[u8]) -> (r: Result<[u8; 32], HandlerError>)
        ensures
            match r {
                Ok(h) => spec_parse_nonce_hash(data@) == Ok::<Seq<u8>, HandlerError>(h@),
                Err(e) => spec_parse_nonce_hash(data@) == Err::<Seq<u8>, HandlerError>(e),
            },
            r is Ok <==> data@.len() >= 72,
            r matches Ok(hash) ==> hash@ == data@.subrange(40, 72),
            r matches Err(e) ==> e == (HandlerError::NonceDataTooShort { len: data@.len() as usize }),
    {
        if data.len() < 72 {
            return Err(HandlerError::NonceDataTooShort { len: data.len() });
        }
        let mut hash = [0u8; 32];
        let mut i: usize = 0;
        while i < 32
            invariant
                0 <= i <= 32,
                data@.len() >= 72,
                forall|j: int| 0 <= j < i ==> hash@[j] == data@[40 + j],
            decreases 32 - i,
        {
            hash[i] = data[40 + i];
            i = i + 1;
        }
        assert(hash@ =~= data@.subrange(40, 72));
        Ok(hash)
    }

    /// Build the instruction list of a claim around the claim instruction.
    pub fn claim_instructions(&self, claimant: [u8; 32], claim_ix: Instruction) -> (r: Result<
        Vec<Instruction>,
        HandlerError,
    >)
        ensures
            match r {
                Ok(ixs) => spec_associated_token_address(claimant, JITOSOL_MINT, TOKEN_PROGRAM_ID) matches Some(ata)
                    && ixs@.map_values(|ix: Instruction| ix@) == spec_claim_instructions(*self, claimant, claim_ix@, ata),
                Err(e) => e == HandlerError::NoViableBumpSeed
                    && spec_associated_token_address(claimant, JITOSOL_MINT, TOKEN_PROGRAM_ID) is None,
            },
    {
        let token_program = token_program_id();
        let ata = associated_token_address(&claimant, &JITOSOL_MINT, &token_program);
        if ata.is_none() {
            return Err(HandlerError::NoViableBumpSeed);
        }
        let mut ixs: Vec<Instruction> = Vec::new();
        // 1. Durable nonce advance (must be first instruction)
        if let Some(nonce_account) = &self.nonce {
            let authority = match &self.nonce_authority {
                Some(a) => *a,
                None => *nonce_account,
            };
            ixs.push(advance_nonce_account(nonce_account, &authority));
        }
        // 2. Lighthouse deploy-slot assertion
        if let Some(slot) = self.assert_deploy_slot {
            ixs.push(build_assert_deploy_slot_ix(slot));
        }
        // 3. Create ATA (idempotent)
        ixs.push(create_associated_token_account_idempotent(&claimant, &claimant, &JITOSOL_MINT, &token_program));
        // 4. Claim instruction
        ixs.push(claim_ix);
        assert(ixs@.map_values(|ix: Instruction| ix@) =~= spec_claim_instructions(
            *self,
            claimant,
            claim_ix@,
            ata->0,
        ));
        Ok(ixs)
    }
}

} // verus!
