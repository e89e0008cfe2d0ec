//! Verified core of the BAM Boost command-line client: command-line grammar,
//! instruction assembly and transaction framing.

pub mod address;
pub mod bam_boost;
pub mod claim_flow;
pub mod claim_laws;
pub mod cli_args;
pub mod cli_grammar;
pub mod cli_laws;
pub mod handler;
pub mod instruction;
pub mod laws;
pub mod lighthouse;
pub mod programs;
pub mod text;
pub mod transaction;
