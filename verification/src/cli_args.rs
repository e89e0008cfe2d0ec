//! Command-line arguments of the BAM Boost CLI.
//!
//! Global options may be given before or after the subcommand names; where
//! one is given at several levels, the innermost occurrence wins. Each level
//! refuses an option given twice, and `--signer` together with `--address`.

use vstd::prelude::*;
use crate::bam_boost::{BamBoostCommands, ClaimStatusActions, MerkleDistributorActions, NetworkArg};
use crate::cli_grammar::{
    empty_state, levels_view, levels_wf, new_state, opt_index, opt_index_exec, parse_level,
    spec_parse_level, toks, ArgVal, ArgValue, Level, LevelMatches, LevelRec, OptId, NUM_OPTS,
};

verus! {

/// Why a command line was refused, or that it asked for help or the version.
#[derive(Clone, Copy, Debug, PartialEq, Eq, Structural)]
pub enum CliError {
    UnknownArgument,
    InvalidSubcommand,
    InvalidValue,
    ValueValidation,
    ArgumentConflict,
    TooManyValues,
    MissingRequiredArgument,
    MissingSubcommand,
    DisplayHelp,
    DisplayHelpOnMissingArgumentOrSubcommand,
    DisplayVersion,
}

/// The program's subcommands.
#[derive(Clone, Copy, Debug, PartialEq, Eq)]
pub enum ProgramCommand {
    /// BAM Boost program commands
    BamBoost { action: BamBoostCommands },
}

/// A CLI for managing BAM Boost operations.
#[derive(Debug)]
pub struct Cli {
    pub command: Option<ProgramCommand>,
    /// Path to the configuration file
    pub config_file: Option<String>,
    /// RPC URL to use
    pub rpc_url: Option<String>,
    /// Commitment level
    pub commitment: Option<String>,
    /// BAM Boost program ID
    pub jito_bam_boost_program_id: Option<String>,
    /// Filepath or URL to a keypair
    pub signer: Option<String>,
    /// Claimant pubkey (offline mode, no signing). Mutually exclusive with --signer
    pub address: Option<String>,
    /// Verbose mode
    pub verbose: bool,
    /// This will print out the raw TX instead of running it
    pub print_tx: bool,
    /// This will print out account information in JSON format
    pub print_json: bool,
    /// This will print out account information in JSON format with reserved space
    pub print_json_with_reserves: bool,
    pub markdown_help: bool,
    /// Assert that the BAM Boost program was deployed at the given slot (Lighthouse guard)
    pub assert_deploy_slot: Option<u64>,
    /// Durable nonce account pubkey
    pub nonce: Option<String>,
    /// Nonce authority pubkey (defaults to nonce account itself if omitted)
    pub nonce_authority: Option<String>,
}

/// The value of a [`Cli`].
pub struct CliView {
    pub command: Option<ProgramCommand>,
    pub config_file: Option<Seq<char>>,
    pub rpc_url: Option<Seq<char>>,
    pub commitment: Option<Seq<char>>,
    pub jito_bam_boost_program_id: Option<Seq<char>>,
    pub signer: Option<Seq<char>>,
    pub address: Option<Seq<char>>,
    pub verbose: bool,
    pub print_tx: bool,
    pub print_json: bool,
    pub print_json_with_reserves: bool,
    pub markdown_help: bool,
    pub assert_deploy_slot: Option<u64>,
    pub nonce: Option<Seq<char>>,
    pub nonce_authority: Option<Seq<char>>,
}

pub open spec fn opt_str(s: Option<String>) -> Option<Seq<char>> {
    match s {
        Some(s) => Some(s@),
        None => None,
    }
}

impl View for Cli {
    type V = CliView;

    open spec fn view(&self) -> CliView {
        CliView {
            command: self.command,
            config_file: opt_str(self.config_file),
            rpc_url: opt_str(self.rpc_url),
            commitment: opt_str(self.commitment),
            jito_bam_boost_program_id: opt_str(self.jito_bam_boost_program_id),
            signer: opt_str(self.signer),
            address: opt_str(self.address),
            verbose: self.verbose,
            print_tx: self.print_tx,
            print_json: self.print_json,
            print_json_with_reserves: self.print_json_with_reserves,
            markdown_help: self.markdown_help,
            assert_deploy_slot: self.assert_deploy_slot,
            nonce: opt_str(self.nonce),
            nonce_authority: opt_str(self.nonce_authority),
        }
    }
}

/// The RPC URL used when `--rpc-url` is not given.
pub open spec fn default_rpc_url() -> Seq<char> {
    "https://api.mainnet-beta.solana.com"@
}

/// The value of option table entry `idx` at the innermost level that has one.
pub open spec fn innermost(levels: Seq<LevelRec>, idx: int) -> Option<ArgVal>
    decreases levels.len(),
{
    if levels.len() == 0 {
        None
    } else {
        match levels.last().1[idx] {
            Some(v) => Some(v),
            None => innermost(levels.drop_last(), idx),
        }
    }
}

pub open spec fn text_of(levels: Seq<LevelRec>, o: OptId) -> Option<Seq<char>> {
    match innermost(levels, opt_index(o)) {
        Some(ArgVal::Text(s)) => Some(s),
        _ => None,
    }
}

pub open spec fn flag_of(levels: Seq<LevelRec>, o: OptId) -> bool {
    innermost(levels, opt_index(o)) is Some
}

pub open spec fn number_of(levels: Seq<LevelRec>, o: OptId) -> Option<u64> {
    match innermost(levels, opt_index(o)) {
        Some(ArgVal::Number(n)) => Some(n),
        _ => None,
    }
}

/// The subcommand that the levels name, with the arguments of its action.
pub open spec fn spec_command(levels: Seq<LevelRec>) -> Option<ProgramCommand> {
    if levels.len() == 4 {
        let leaf = levels[3];
        match (leaf.0, leaf.1[opt_index(OptId::Epoch)], leaf.1[opt_index(OptId::Claimant)]) {
            (Level::Claim, Some(ArgVal::Number(epoch)), _) => Some(
                ProgramCommand::BamBoost {
                    action: BamBoostCommands::MerkleDistributor {
                        action: MerkleDistributorActions::Claim {
                            network: match leaf.1[opt_index(OptId::Network)] {
                                Some(ArgVal::Network(n)) => n,
                                _ => NetworkArg::Mainnet,
                            },
                            epoch,
                        },
                    },
                },
            ),
            (Level::Get, Some(ArgVal::Number(epoch)), Some(ArgVal::Key(claimant))) => Some(
                ProgramCommand::BamBoost {
                    action: BamBoostCommands::ClaimStatus {
                        action: ClaimStatusActions::Get { epoch, claimant },
                    },
                },
            ),
            _ => None,
        }
    } else {
        None
    }
}

/// The arguments that the options read at each level give: the innermost
/// occurrence of each global option, or its default.
pub open spec fn spec_build_cli(levels: Seq<LevelRec>) -> CliView {
    CliView {
        command: spec_command(levels),
        config_file: text_of(levels, OptId::ConfigFile),
        rpc_url: match text_of(levels, OptId::RpcUrl) {
            Some(s) => Some(s),
            None => Some(default_rpc_url()),
        },
        commitment: text_of(levels, OptId::Commitment),
        jito_bam_boost_program_id: text_of(levels, OptId::ProgramId),
        signer: text_of(levels, OptId::Signer),
        address: text_of(levels, OptId::Address),
        verbose: flag_of(levels, OptId::Verbose),
        print_tx: flag_of(levels, OptId::PrintTx),
        print_json: flag_of(levels, OptId::PrintJson),
        print_json_with_reserves: flag_of(levels, OptId::PrintJsonWithReserves),
        markdown_help: flag_of(levels, OptId::MarkdownHelp),
        assert_deploy_slot: number_of(levels, OptId::AssertDeploySlot),
        nonce: text_of(levels, OptId::Nonce),
        nonce_authority: text_of(levels, OptId::NonceAuthority),
    }
}

/// What the command line `args` (program name first) gives.
pub open spec fn spec_try_parse_from(args: Seq<Seq<char>>) -> Result<CliView, CliError> {
    match spec_parse_level(Level::Top, args, 1, empty_state()) {
        Ok(levels) => Ok(spec_build_cli(levels)),
        Err(e) => Err(e),
    }
}

/// The level and value of option table entry `idx` at the innermost level that has one.
fn innermost_at(levels: &Vec<LevelMatches>, idx: usize) -> (r: Option<usize>)
    requires
        levels_wf(*levels),
        idx < NUM_OPTS,
    ensures
        match r {
            Some(k) => k < levels@.len() && innermost(levels_view(*levels), idx as int)
                == levels_view(*levels)[k as int].1[idx as int]
                && levels_view(*levels)[k as int].1[idx as int] is Some,
            None => innermost(levels_view(*levels), idx as int) is None,
        },
{
    let ghost lv = levels_view(*levels);
    let mut k = levels.len();
    assert(lv.take(k as int) =~= lv);
    while k > 0
        invariant
            0 <= k <= levels@.len(),
            lv == levels_view(*levels),
            levels_wf(*levels),
            idx < NUM_OPTS,
            innermost(lv, idx as int) == innermost(lv.take(k as int), idx as int),
        decreases k,
    {
        let present = levels[k - 1].values[idx].is_some();
        assert(lv.take(k as int).last() == lv[k - 1]);
        assert(lv.take(k as int).drop_last() =~= lv.take(k - 1));
        if present {
            return Some(k - 1);
        }
        k = k - 1;
    }
    None
}

fn text_at(levels: &Vec<LevelMatches>, o: OptId) -> (r: Option<String>)
    requires
        levels_wf(*levels),
    ensures
        opt_str(r) == text_of(levels_view(*levels), o),
{
    let idx = opt_index_exec(o);
    match innermost_at(levels, idx) {
        Some(k) => match &levels[k].values[idx] {
            Some(ArgValue::Text(s)) => Some(s.clone()),
            _ => None,
        },
        None => None,
    }
}

fn flag_at(levels: &Vec<LevelMatches>, o: OptId) -> (r: bool)
    requires
        levels_wf(*levels),
    ensures
        r == flag_of(levels_view(*levels), o),
{
    let idx = opt_index_exec(o);
    innermost_at(levels, idx).is_some()
}

fn number_at(levels: &Vec<LevelMatches>, o: OptId) -> (r: Option<u64>)
    requires
        levels_wf(*levels),
    ensures
        r == number_of(levels_view(*levels), o),
{
    let idx = opt_index_exec(o);
    match innermost_at(levels, idx) {
        Some(k) => match &levels[k].values[idx] {
            Some(ArgValue::Number(n)) => Some(*n),
            _ => None,
        },
        None => None,
    }
}

fn command_of(levels: &Vec<LevelMatches>) -> (r: Option<ProgramCommand>)
    requires
        levels_wf(*levels),
    ensures
        r == spec_command(levels_view(*levels)),
{
    if levels.len() != 4 {
        return None;
    }
    let leaf = &levels[3];
    let e = &leaf.values[opt_index_exec(OptId::Epoch)];
    let c = &leaf.values[opt_index_exec(OptId::Claimant)];
    let n = &leaf.values[opt_index_exec(OptId::Network)];
    match (leaf.level, e, c) {
        (Level::Claim, Some(ArgValue::Number(epoch)), _) => {
            let network = match n {
                Some(ArgValue::Network(net)) => *net,
                _ => NetworkArg::Mainnet,
            };
            Some(
                ProgramCommand::BamBoost {
                    action: BamBoostCommands::MerkleDistributor {
                        action: MerkleDistributorActions::Claim { network, epoch: *epoch },
                    },
                },
            )
        },
        (Level::Get, Some(ArgValue::Number(epoch)), Some(ArgValue::Key(claimant))) => Some(
            ProgramCommand::BamBoost {
                action: BamBoostCommands::ClaimStatus {
                    action: ClaimStatusActions::Get { epoch: *epoch, claimant: *claimant },
                },
            },
        ),
        _ => None,
    }
}

fn build_cli(levels: &Vec<LevelMatches>) -> (cli: Cli)
    requires
        levels_wf(*levels),
    ensures
        cli@ == spec_build_cli(levels_view(*levels)),
{
    let rpc_url = match text_at(levels, OptId::RpcUrl) {
        Some(s) => Some(s),
        None => Some("https://api.mainnet-beta.solana.com".to_owned()),
    };
    Cli {
        command: command_of(levels),
        config_file: text_at(levels, OptId::ConfigFile),
        rpc_url,
        commitment: text_at(levels, OptId::Commitment),
        jito_bam_boost_program_id: text_at(levels, OptId::ProgramId),
        signer: text_at(levels, OptId::Signer),
        address: text_at(levels, OptId::Address),
        verbose: flag_at(levels, OptId::Verbose),
        print_tx: flag_at(levels, OptId::PrintTx),
        print_json: flag_at(levels, OptId::PrintJson),
        print_json_with_reserves: flag_at(levels, OptId::PrintJsonWithReserves),
        markdown_help: flag_at(levels, OptId::MarkdownHelp),
        assert_deploy_slot: number_at(levels, OptId::AssertDeploySlot),
        nonce: text_at(levels, OptId::Nonce),
        nonce_authority: text_at(levels, OptId::NonceAuthority),
    }
}

impl Cli {
    /// Parse a command line (program name first), or say why it is refused.
    pub fn try_parse_from(args: &[&str]) -> (r: Result<Cli, CliError>)
        ensures
            match r {
                Ok(cli) => spec_try_parse_from(toks(args)) == Ok::<CliView, CliError>(cli@),
                Err(e) => spec_try_parse_from(toks(args)) == Err::<CliView, CliError>(e),
            },
    {
        let start: usize = if args.len() == 0 { 0 } else { 1 };
        let parsed = parse_level(Level::Top, args, start, new_state());
        assert(spec_parse_level(Level::Top, toks(args), start as int, empty_state())
            == spec_parse_level(Level::Top, toks(args), 1, empty_state()));
        match parsed {
            Ok(levels) => Ok(build_cli(&levels)),
            Err(e) => Err(e),
        }
    }

    /// Parse a command line (program name first) that the grammar accepts.
    pub fn parse_from(args: &[&str]) -> (cli: Cli)
        requires
            spec_try_parse_from(toks(args)) is Ok,
        ensures
            spec_try_parse_from(toks(args)) == Ok::<CliView, CliError>(cli@),
    {
        match Cli::try_parse_from(args) {
            Ok(cli) => cli,
            Err(_) => {
                assert(false);
                Cli::try_parse_from(args).unwrap()
            },
        }
    }
}

} // verus!
