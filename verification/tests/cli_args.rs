use jito_bam_boost_cli::bam_boost::{
    BamBoostCommands, ClaimStatusActions, MerkleDistributorActions, NetworkArg,
};
use jito_bam_boost_cli::cli_args::{Cli, CliError, ProgramCommand};

#[test]
fn test_rpc_default_is_mainnet() {
    let cli = Cli::parse_from(&["jito-bam-boost-cli"]);
    assert_eq!(
        cli.rpc_url.as_deref(),
        Some("https://api.mainnet-beta.solana.com")
    );
}

#[test]
fn test_network_default_is_mainnet() {
    let cli = Cli::parse_from(&[
        "jito-bam-boost-cli",
        "bam-boost",
        "merkle-distributor",
        "claim",
        "--epoch",
        "1",
    ]);
    match cli.command {
        Some(ProgramCommand::BamBoost {
            action:
                BamBoostCommands::MerkleDistributor {
                    action: MerkleDistributorActions::Claim { network, .. },
                },
        }) => {
            assert!(
                matches!(network, NetworkArg::Mainnet),
                "Expected default network to be Mainnet, got {:?}",
                network
            );
        }
        other => panic!("Unexpected command variant: {:?}", other),
    }
}

#[test]
fn test_address_and_signer_mutually_exclusive() {
    let result = Cli::try_parse_from(&[
        "jito-bam-boost-cli",
        "--signer",
        "/tmp/key.json",
        "--address",
        "11111111111111111111111111111111",
    ]);
    assert!(result.is_err(), "Expected error when both --signer and --address are provided");
}

fn err_of(args: &[&str]) -> CliError {
    match Cli::try_parse_from(args) {
        Ok(_) => panic!("expected an error for {:?}", args),
        Err(e) => e,
    }
}

#[test]
fn empty_command_line_gives_defaults() {
    let cli = Cli::try_parse_from(&[]).unwrap();
    assert!(cli.command.is_none());
    assert_eq!(cli.rpc_url.as_deref(), Some("https://api.mainnet-beta.solana.com"));
    assert!(cli.signer.is_none() && cli.address.is_none() && cli.config_file.is_none());
    assert!(!cli.verbose && !cli.print_tx && !cli.print_json && !cli.print_json_with_reserves);
    assert!(!cli.markdown_help);
    assert!(cli.assert_deploy_slot.is_none());
    assert!(cli.nonce.is_none() && cli.nonce_authority.is_none());
}

#[test]
fn global_options_before_and_after_subcommands() {
    let cli = Cli::parse_from(&[
        "prog",
        "--rpc-url=http://localhost:8899",
        "--verbose",
        "bam-boost",
        "merkle-distributor",
        "--print-tx",
        "claim",
        "--epoch",
        "+42",
        "--network",
        "testnet",
        "--assert-deploy-slot",
        "123456789",
        "--nonce",
        "NonceAcct",
        "--commitment=confirmed",
    ]);
    assert_eq!(cli.rpc_url.as_deref(), Some("http://localhost:8899"));
    assert!(cli.verbose);
    assert!(cli.print_tx);
    assert!(!cli.print_json);
    assert_eq!(cli.assert_deploy_slot, Some(123456789));
    assert_eq!(cli.nonce.as_deref(), Some("NonceAcct"));
    assert_eq!(cli.commitment.as_deref(), Some("confirmed"));
    assert_eq!(
        cli.command,
        Some(ProgramCommand::BamBoost {
            action: BamBoostCommands::MerkleDistributor {
                action: MerkleDistributorActions::Claim { network: NetworkArg::Testnet, epoch: 42 },
            },
        })
    );
}

#[test]
fn innermost_occurrence_of_a_global_option_wins() {
    let cli = Cli::parse_from(&[
        "prog", "--rpc-url", "outer", "bam-boost", "--rpc-url", "inner", "merkle-distributor",
        "claim", "--epoch", "7",
    ]);
    assert_eq!(cli.rpc_url.as_deref(), Some("inner"));
}

#[test]
fn claim_status_get_parses_claimant() {
    let cli = Cli::parse_from(&[
        "prog",
        "bam-boost",
        "claim-status",
        "get",
        "--epoch",
        "3",
        "--claimant",
        "11111111111111111111111111111111",
    ]);
    assert_eq!(
        cli.command,
        Some(ProgramCommand::BamBoost {
            action: BamBoostCommands::ClaimStatus {
                action: ClaimStatusActions::Get { epoch: 3, claimant: [0u8; 32] },
            },
        })
    );
}

#[test]
fn refused_command_lines_and_their_errors() {
    assert_eq!(err_of(&["prog", "--bogus"]), CliError::UnknownArgument);
    assert_eq!(err_of(&["prog", "bogus"]), CliError::InvalidSubcommand);
    assert_eq!(err_of(&["prog", "--help"]), CliError::DisplayHelp);
    assert_eq!(err_of(&["prog", "-h"]), CliError::DisplayHelp);
    assert_eq!(err_of(&["prog", "--version"]), CliError::DisplayVersion);
    assert_eq!(err_of(&["prog", "-V"]), CliError::DisplayVersion);
    assert_eq!(err_of(&["prog", "help"]), CliError::DisplayHelp);
    assert_eq!(err_of(&["prog", "help", "bam-boost", "claim-status"]), CliError::DisplayHelp);
    assert_eq!(err_of(&["prog", "help", "nope"]), CliError::InvalidSubcommand);
    assert_eq!(err_of(&["prog", "--verbose", "--verbose"]), CliError::ArgumentConflict);
    assert_eq!(err_of(&["prog", "--verbose=yes"]), CliError::TooManyValues);
    assert_eq!(err_of(&["prog", "--signer"]), CliError::InvalidValue);
    assert_eq!(err_of(&["prog", "--config-file="]), CliError::InvalidValue);
    assert_eq!(err_of(&["prog", "--assert-deploy-slot", "x1"]), CliError::ValueValidation);
    assert_eq!(
        err_of(&["prog", "--assert-deploy-slot", "18446744073709551616"]),
        CliError::ValueValidation
    );
    assert_eq!(err_of(&["prog", "bam-boost"]), CliError::DisplayHelpOnMissingArgumentOrSubcommand);
    assert_eq!(err_of(&["prog", "bam-boost", "--verbose"]), CliError::MissingSubcommand);
    assert_eq!(
        err_of(&["prog", "bam-boost", "merkle-distributor", "claim"]),
        CliError::MissingRequiredArgument
    );
    assert_eq!(
        err_of(&["prog", "bam-boost", "merkle-distributor", "claim", "--epoch", "1", "--network", "devnet"]),
        CliError::InvalidValue
    );
    assert_eq!(
        err_of(&["prog", "bam-boost", "claim-status", "get", "--epoch", "1", "--claimant", "0OIl"]),
        CliError::ValueValidation
    );
    assert_eq!(err_of(&["prog", "--epoch", "1"]), CliError::UnknownArgument);
    assert_eq!(err_of(&["prog", "--", "bam-boost"]), CliError::UnknownArgument);
    assert_eq!(err_of(&["prog", "--signer", "a", "b"]), CliError::InvalidSubcommand);
}

#[test]
fn max_u64_slot_is_accepted() {
    let cli = Cli::parse_from(&["prog", "--assert-deploy-slot=18446744073709551615"]);
    assert_eq!(cli.assert_deploy_slot, Some(u64::MAX));
}

#[test]
fn signer_and_address_at_different_levels_are_both_kept() {
    let cli = Cli::parse_from(&[
        "prog", "--signer", "key.json", "bam-boost", "--address", "Addr", "merkle-distributor",
        "claim", "--epoch", "1",
    ]);
    assert_eq!(cli.signer.as_deref(), Some("key.json"));
    assert_eq!(cli.address.as_deref(), Some("Addr"));
}

#[test]
fn trailing_double_dash_is_accepted() {
    let cli = Cli::parse_from(&["prog", "--verbose", "--"]);
    assert!(cli.verbose);
}
