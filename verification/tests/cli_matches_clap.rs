//! The command-line grammar checked against clap's parser built with the same
//! arguments, on a list of command lines.

use clap::builder::{PathBufValueParser, PossibleValuesParser, RangedU64ValueParser, ValueParser};
use clap::error::ErrorKind;
use clap::{Arg, ArgAction, ArgMatches, Command};
use jito_bam_boost_cli::bam_boost::{BamBoostCommands, ClaimStatusActions, MerkleDistributorActions, NetworkArg};
use jito_bam_boost_cli::cli_args::{Cli, CliError, ProgramCommand};
use solana_pubkey::Pubkey;
use std::str::FromStr;

fn text_arg(id: &'static str, long: &'static str) -> Arg {
    Arg::new(id).long(long).global(true)
}

fn flag_arg(id: &'static str, long: &'static str) -> Arg {
    Arg::new(id).long(long).global(true).action(ArgAction::SetTrue)
}

fn reference_command() -> Command {
    let claim = Command::new("claim")
        .arg(
            Arg::new("network")
                .long("network")
                .value_parser(PossibleValuesParser::new(["mainnet", "testnet"]))
                .default_value("mainnet"),
        )
        .arg(Arg::new("epoch").long("epoch").required(true).value_parser(RangedU64ValueParser::<u64>::new()));
    let get = Command::new("get")
        .arg(Arg::new("epoch").long("epoch").required(true).value_parser(RangedU64ValueParser::<u64>::new()))
        .arg(
            Arg::new("claimant")
                .long("claimant")
                .required(true)
                .value_parser(ValueParser::new(|s: &str| Pubkey::from_str(s))),
        );
    let merkle = Command::new("merkle-distributor")
        .subcommand_required(true)
        .arg_required_else_help(true)
        .subcommand(claim);
    let status = Command::new("claim-status")
        .subcommand_required(true)
        .arg_required_else_help(true)
        .subcommand(get);
    let bam = Command::new("bam-boost")
        .subcommand_required(true)
        .arg_required_else_help(true)
        .subcommand(merkle)
        .subcommand(status);
    Command::new("jito-bam-boost-cli")
        .version("0.1.0")
        .about("A CLI for managing BAM Boost operations")
        .subcommand(bam)
        .arg(text_arg("config_file", "config-file").value_parser(PathBufValueParser::new()))
        .arg(text_arg("rpc_url", "rpc-url").default_value("https://api.mainnet-beta.solana.com"))
        .arg(text_arg("commitment", "commitment"))
        .arg(text_arg("jito_bam_boost_program_id", "jito-bam-boost-program-id"))
        .arg(text_arg("signer", "signer").conflicts_with("address"))
        .arg(text_arg("address", "address").conflicts_with("signer"))
        .arg(flag_arg("verbose", "verbose"))
        .arg(flag_arg("print_tx", "print-tx").default_value("false"))
        .arg(flag_arg("print_json", "print-json").default_value("false"))
        .arg(flag_arg("print_json_with_reserves", "print-json-with-reserves").default_value("false"))
        .arg(flag_arg("markdown_help", "markdown-help").hide(true))
        .arg(text_arg("assert_deploy_slot", "assert-deploy-slot").value_parser(RangedU64ValueParser::<u64>::new()))
        .arg(text_arg("nonce", "nonce"))
        .arg(text_arg("nonce_authority", "nonce-authority"))
}

fn kind_of(e: CliError) -> ErrorKind {
    match e {
        CliError::UnknownArgument => ErrorKind::UnknownArgument,
        CliError::InvalidSubcommand => ErrorKind::InvalidSubcommand,
        CliError::InvalidValue => ErrorKind::InvalidValue,
        CliError::ValueValidation => ErrorKind::ValueValidation,
        CliError::ArgumentConflict => ErrorKind::ArgumentConflict,
        CliError::TooManyValues => ErrorKind::TooManyValues,
        CliError::MissingRequiredArgument => ErrorKind::MissingRequiredArgument,
        CliError::MissingSubcommand => ErrorKind::MissingSubcommand,
        CliError::DisplayHelp => ErrorKind::DisplayHelp,
        CliError::DisplayHelpOnMissingArgumentOrSubcommand => {
            ErrorKind::DisplayHelpOnMissingArgumentOrSubcommand
        }
        CliError::DisplayVersion => ErrorKind::DisplayVersion,
    }
}

fn text(m: &ArgMatches, id: &str) -> Option<String> {
    m.get_one::<String>(id).cloned()
}

fn command_of(m: &ArgMatches) -> Option<ProgramCommand> {
    let (_, bam) = m.subcommand()?;
    let action = match bam.subcommand() {
        Some(("merkle-distributor", md)) => {
            let (_, claim) = md.subcommand().unwrap();
            let network = match claim.get_one::<String>("network").unwrap().as_str() {
                "mainnet" => NetworkArg::Mainnet,
                _ => NetworkArg::Testnet,
            };
            BamBoostCommands::MerkleDistributor {
                action: MerkleDistributorActions::Claim {
                    network,
                    epoch: *claim.get_one::<u64>("epoch").unwrap(),
                },
            }
        }
        Some(("claim-status", cs)) => {
            let (_, get) = cs.subcommand().unwrap();
            BamBoostCommands::ClaimStatus {
                action: ClaimStatusActions::Get {
                    epoch: *get.get_one::<u64>("epoch").unwrap(),
                    claimant: get.get_one::<Pubkey>("claimant").unwrap().to_bytes(),
                },
            }
        }
        _ => panic!("unexpected subcommand"),
    };
    Some(ProgramCommand::BamBoost { action })
}

fn compare(args: &[&str]) {
    let ours = Cli::try_parse_from(args);
    let theirs = reference_command().try_get_matches_from(args);
    match (ours, theirs) {
        (Ok(cli), Ok(m)) => {
            assert_eq!(
                cli.config_file,
                m.get_one::<std::path::PathBuf>("config_file").map(|p| p.to_string_lossy().into_owned()),
                "{:?}",
                args
            );
            assert_eq!(cli.rpc_url, text(&m, "rpc_url"), "{:?}", args);
            assert_eq!(cli.commitment, text(&m, "commitment"), "{:?}", args);
            assert_eq!(cli.jito_bam_boost_program_id, text(&m, "jito_bam_boost_program_id"), "{:?}", args);
            assert_eq!(cli.signer, text(&m, "signer"), "{:?}", args);
            assert_eq!(cli.address, text(&m, "address"), "{:?}", args);
            assert_eq!(cli.verbose, m.get_flag("verbose"), "{:?}", args);
            assert_eq!(cli.print_tx, m.get_flag("print_tx"), "{:?}", args);
            assert_eq!(cli.print_json, m.get_flag("print_json"), "{:?}", args);
            assert_eq!(cli.print_json_with_reserves, m.get_flag("print_json_with_reserves"), "{:?}", args);
            assert_eq!(cli.markdown_help, m.get_flag("markdown_help"), "{:?}", args);
            assert_eq!(cli.assert_deploy_slot, m.get_one::<u64>("assert_deploy_slot").copied(), "{:?}", args);
            assert_eq!(cli.nonce, text(&m, "nonce"), "{:?}", args);
            assert_eq!(cli.nonce_authority, text(&m, "nonce_authority"), "{:?}", args);
            assert_eq!(cli.command, command_of(&m), "{:?}", args);
        }
        (Err(e), Err(ce)) => assert_eq!(kind_of(e), ce.kind(), "{:?}", args),
        (ours, theirs) => panic!(
            "{:?}: library gives {:?}, clap gives {:?}",
            args,
            ours.map(|c| format!("{:?}", c)),
            theirs.map(|_| ()).map_err(|e| e.kind())
        ),
    }
}

const KEY: &str = "J1toso1uCk3RLmjorhTtrVwY9HJ7X8V9yYac6Y7kGCPn";

#[test]
fn command_lines_parse_as_clap_parses_them() {
    let cases: Vec<Vec<&str>> = vec![
        vec!["p"],
        vec![],
        vec!["p", "--verbose"],
        vec!["p", "--verbose", "--verbose"],
        vec!["p", "--verbose=1"],
        vec!["p", "--verbose="],
        vec!["p", "--rpc-url", "x"],
        vec!["p", "--rpc-url=x=y"],
        vec!["p", "--rpc-url="],
        vec!["p", "--rpc-url"],
        vec!["p", "--rpc-url", "a", "--rpc-url", "b"],
        vec!["p", "--rpc-url", "--verbose"],
        vec!["p", "--rpc-url", "-h"],
        vec!["p", "--rpc-url", "-x"],
        vec!["p", "--rpc-url", "--nope"],
        vec!["p", "--rpc-url", "-"],
        vec!["p", "--rpc-url", "bam-boost"],
        vec!["p", "--config-file", ""],
        vec!["p", "--config-file=cfg.yml"],
        vec!["p", "--signer", "k", "--address", KEY],
        vec!["p", "--address", KEY, "--signer", "k"],
        vec!["p", "--signer", "k", "bam-boost", "--address", KEY, "merkle-distributor", "claim", "--epoch", "1"],
        vec!["p", "bam-boost", "merkle-distributor", "claim", "--epoch", "1", "--signer", "k", "--address", KEY],
        vec!["p", "bam-boost", "merkle-distributor", "claim", "--signer", "k", "--address", KEY],
        vec!["p", "--signer", "k", "--address", KEY, "bam-boost", "merkle-distributor", "claim"],
        vec!["p", "--assert-deploy-slot", "abc", "bam-boost", "merkle-distributor", "claim"],
        vec!["p", "--assert-deploy-slot", "abc"],
        vec!["p", "--assert-deploy-slot", "-1"],
        vec!["p", "--assert-deploy-slot", "+12"],
        vec!["p", "--assert-deploy-slot", "18446744073709551615"],
        vec!["p", "--assert-deploy-slot", "18446744073709551616"],
        vec!["p", "--help"],
        vec!["p", "-h"],
        vec!["p", "-hx"],
        vec!["p", "-x"],
        vec!["p", "-V"],
        vec!["p", "--version"],
        vec!["p", "--version=2"],
        vec!["p", "bam-boost", "--version"],
        vec!["p", "bam-boost", "-V"],
        vec!["p", "bam-boost", "-h"],
        vec!["p", "help"],
        vec!["p", "help", "bam-boost"],
        vec!["p", "help", "bam-boost", "claim-status", "get"],
        vec!["p", "help", "nope"],
        vec!["p", "bam-boost", "help"],
        vec!["p", "bam-boost", "merkle-distributor", "claim", "help"],
        vec!["p", "nope"],
        vec!["p", "-"],
        vec!["p", ""],
        vec!["p", "--"],
        vec!["p", "--", "bam-boost"],
        vec!["p", "--", "x"],
        vec!["p", "--", "--verbose"],
        vec!["p", "--rpc-url", "--"],
        vec!["p", "--rpc-url", "--", "x"],
        vec!["p", "bam-boost"],
        vec!["p", "bam-boost", "--verbose"],
        vec!["p", "bam-boost", "nope"],
        vec!["p", "bam-boost", "merkle-distributor"],
        vec!["p", "bam-boost", "merkle-distributor", "claim"],
        vec!["p", "bam-boost", "merkle-distributor", "claim", "--epoch"],
        vec!["p", "bam-boost", "merkle-distributor", "claim", "--epoch", "1"],
        vec!["p", "bam-boost", "merkle-distributor", "claim", "--epoch", "1", "extra"],
        vec!["p", "bam-boost", "merkle-distributor", "claim", "--epoch", "1", "--epoch", "2"],
        vec!["p", "bam-boost", "merkle-distributor", "claim", "--epoch", "1", "--network", "testnet"],
        vec!["p", "bam-boost", "merkle-distributor", "claim", "--epoch", "1", "--network", "Testnet"],
        vec!["p", "bam-boost", "merkle-distributor", "claim", "--epoch", "1", "--network="],
        vec!["p", "bam-boost", "merkle-distributor", "claim", "--epoch=7", "--claimant", KEY],
        vec!["p", "--network", "testnet", "bam-boost", "merkle-distributor", "claim", "--epoch", "1"],
        vec!["p", "--epoch", "1", "bam-boost"],
        vec!["p", "bam-boost", "claim-status", "get", "--epoch", "3", "--claimant", KEY],
        vec!["p", "bam-boost", "claim-status", "get", "--epoch", "3"],
        vec!["p", "bam-boost", "claim-status", "get", "--claimant", "bad"],
        vec!["p", "bam-boost", "claim-status", "get", "--epoch", "x", "--claimant", "bad"],
        vec!["p", "--print-tx", "bam-boost", "--print-json", "merkle-distributor", "--print-tx", "claim", "--epoch", "5"],
        vec!["p", "--rpc-url", "a", "bam-boost", "merkle-distributor", "claim", "--epoch", "5", "--rpc-url", "b"],
        vec!["p", "--nonce", "n", "--nonce-authority", "a", "--commitment", "finalized", "--markdown-help"],
        vec!["p", "--jito-bam-boost-program-id", KEY, "--print-json-with-reserves"],
        vec!["p", "--rpc-urlx", "a"],
        vec!["p", "--=a"],
        vec!["p", "bam-boost", "merkle-distributor", "claim", "--epoch", "1", "--", "x"],
        vec!["p", "bam-boost", "merkle-distributor", "claim", "--epoch", "1", "--"],
    ];
    for case in &cases {
        compare(case);
    }
}
