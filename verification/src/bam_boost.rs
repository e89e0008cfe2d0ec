//! The `bam-boost` subcommands and their arguments.

use vstd::prelude::*;

verus! {

/// The cluster whose merkle tree a claim is made against.
#[derive(Clone, Copy, Debug, PartialEq, Eq, Structural)]
pub enum NetworkArg {
    Mainnet,
    Testnet,
}

/// `bam-boost merkle-distributor` actions.
#[derive(Clone, Copy, Debug, PartialEq, Eq, Structural)]
pub enum MerkleDistributorActions {
    /// Claim the subsidy of an epoch: `claim --epoch <EPOCH> [--network <NETWORK>]`.
    Claim { network: NetworkArg, epoch: u64 },
}

/// `bam-boost claim-status` actions.
#[derive(Clone, Copy, Debug, PartialEq, Eq)]
pub enum ClaimStatusActions {
    /// Show a claim status account: `get --epoch <EPOCH> --claimant <CLAIMANT>`.
    Get { epoch: u64, claimant: [u8; 32] },
}

/// `bam-boost` subcommands.
#[derive(Clone, Copy, Debug, PartialEq, Eq)]
pub enum BamBoostCommands {
    MerkleDistributor { action: MerkleDistributorActions },
    ClaimStatus { action: ClaimStatusActions },
}

} // verus!
