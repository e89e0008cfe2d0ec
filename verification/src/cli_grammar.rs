//! The command-line grammar: which options each command level knows, what a
//! token does to the parse state, and how the levels nest.
//!
//! A command line is read level by level. Each level keeps the options given
//! at that level, an option still waiting for (or holding) its value, and
//! whether `--` was seen. A subcommand name hands the rest of the line to the
//! subcommand; its level is finished (and checked) before the outer one.

use vstd::prelude::*;
use vstd::string::StrSliceExecFns;
use crate::address::{parse_address, spec_parse_address};
use crate::bam_boost::NetworkArg;
use crate::cli_args::CliError;
use crate::cli_laws::{law_network_value_names_its_cluster, names_network};
use crate::text::{find_eq, index_of_eq, parse_u64, spec_parse_u64, str_eq, sub_eq};

verus! {

/// A level of the command tree.
#[derive(Clone, Copy, Debug, PartialEq, Eq, Structural)]
pub enum Level {
    Top,
    BamBoost,
    MerkleDistributor,
    ClaimStatus,
    Claim,
    Get,
}

/// Every long option of the program.
#[derive(Clone, Copy, Debug, PartialEq, Eq, Structural)]
pub enum OptId {
    ConfigFile,
    RpcUrl,
    Commitment,
    ProgramId,
    Signer,
    Address,
    Verbose,
    PrintTx,
    PrintJson,
    PrintJsonWithReserves,
    MarkdownHelp,
    AssertDeploySlot,
    Nonce,
    NonceAuthority,
    Network,
    Epoch,
    Claimant,
    Help,
    Version,
}

/// Number of options, the length of each level's table of values.
pub const NUM_OPTS: usize = 19;

pub open spec fn opt_index(o: OptId) -> int {
    match o {
        OptId::ConfigFile => 0,
        OptId::RpcUrl => 1,
        OptId::Commitment => 2,
        OptId::ProgramId => 3,
        OptId::Signer => 4,
        OptId::Address => 5,
        OptId::Verbose => 6,
        OptId::PrintTx => 7,
        OptId::PrintJson => 8,
        OptId::PrintJsonWithReserves => 9,
        OptId::MarkdownHelp => 10,
        OptId::AssertDeploySlot => 11,
        OptId::Nonce => 12,
        OptId::NonceAuthority => 13,
        OptId::Network => 14,
        OptId::Epoch => 15,
        OptId::Claimant => 16,
        OptId::Help => 17,
        OptId::Version => 18,
    }
}

pub open spec fn opt_at(i: int) -> OptId {
    if i == 0 {
        OptId::ConfigFile
    } else if i == 1 {
        OptId::RpcUrl
    } else if i == 2 {
        OptId::Commitment
    } else if i == 3 {
        OptId::ProgramId
    } else if i == 4 {
        OptId::Signer
    } else if i == 5 {
        OptId::Address
    } else if i == 6 {
        OptId::Verbose
    } else if i == 7 {
        OptId::PrintTx
    } else if i == 8 {
        OptId::PrintJson
    } else if i == 9 {
        OptId::PrintJsonWithReserves
    } else if i == 10 {
        OptId::MarkdownHelp
    } else if i == 11 {
        OptId::AssertDeploySlot
    } else if i == 12 {
        OptId::Nonce
    } else if i == 13 {
        OptId::NonceAuthority
    } else if i == 14 {
        OptId::Network
    } else if i == 15 {
        OptId::Epoch
    } else if i == 16 {
        OptId::Claimant
    } else if i == 17 {
        OptId::Help
    } else {
        OptId::Version
    }
}

/// The option's name after `--`.
pub open spec fn long_name(o: OptId) -> Seq<char> {
    match o {
        OptId::ConfigFile => "config-file"@,
        OptId::RpcUrl => "rpc-url"@,
        OptId::Commitment => "commitment"@,
        OptId::ProgramId => "jito-bam-boost-program-id"@,
        OptId::Signer => "signer"@,
        OptId::Address => "address"@,
        OptId::Verbose => "verbose"@,
        OptId::PrintTx => "print-tx"@,
        OptId::PrintJson => "print-json"@,
        OptId::PrintJsonWithReserves => "print-json-with-reserves"@,
        OptId::MarkdownHelp => "markdown-help"@,
        OptId::AssertDeploySlot => "assert-deploy-slot"@,
        OptId::Nonce => "nonce"@,
        OptId::NonceAuthority => "nonce-authority"@,
        OptId::Network => "network"@,
        OptId::Epoch => "epoch"@,
        OptId::Claimant => "claimant"@,
        OptId::Help => "help"@,
        OptId::Version => "version"@,
    }
}

/// Whether the option takes a value (the others are flags).
pub open spec fn takes_value(o: OptId) -> bool {
    !(o is Verbose || o is PrintTx || o is PrintJson || o is PrintJsonWithReserves
        || o is MarkdownHelp || o is Help || o is Version)
}

/// Whether the option is known at the level: the global options and `--help`
/// everywhere, `--version` at the top, the action arguments at their action.
pub open spec fn available(o: OptId, level: Level) -> bool {
    match o {
        OptId::Network => level is Claim,
        OptId::Epoch => level is Claim || level is Get,
        OptId::Claimant => level is Get,
        OptId::Version => level is Top,
        _ => true,
    }
}

/// The first option in table order that the level knows under `name`.
pub open spec fn lookup_from(level: Level, name: Seq<char>, k: int) -> Option<OptId>
    decreases NUM_OPTS - k,
{
    if k >= NUM_OPTS {
        None
    } else if available(opt_at(k), level) && long_name(opt_at(k)) == name {
        Some(opt_at(k))
    } else {
        lookup_from(level, name, k + 1)
    }
}

pub open spec fn spec_lookup_long(level: Level, name: Seq<char>) -> Option<OptId> {
    lookup_from(level, name, 0)
}

/// The subcommand a token names at a level.
pub open spec fn spec_subcommand_of(level: Level, t: Seq<char>) -> Option<Level> {
    match level {
        Level::Top => if t == "bam-boost"@ { Some(Level::BamBoost) } else { None },
        Level::BamBoost => if t == "merkle-distributor"@ {
            Some(Level::MerkleDistributor)
        } else if t == "claim-status"@ {
            Some(Level::ClaimStatus)
        } else {
            None
        },
        Level::MerkleDistributor => if t == "claim"@ { Some(Level::Claim) } else { None },
        Level::ClaimStatus => if t == "get"@ { Some(Level::Get) } else { None },
        _ => None,
    }
}

pub open spec fn has_subcommands(level: Level) -> bool {
    level is Top || level is BamBoost || level is MerkleDistributor || level is ClaimStatus
}

/// The levels whose subcommand must be given.
pub open spec fn requires_subcommand(level: Level) -> bool {
    level is BamBoost || level is MerkleDistributor || level is ClaimStatus
}

/// A parsed option value.
pub enum ArgVal {
    Text(Seq<char>),
    Flag,
    Number(u64),
    Network(NetworkArg),
    Key([u8; 32]),
}

/// A parsed option value.
pub enum ArgValue {
    Text(String),
    Flag,
    Number(u64),
    Network(NetworkArg),
    Key([u8; 32]),
}

impl View for ArgValue {
    type V = ArgVal;

    open spec fn view(&self) -> ArgVal {
        match self {
            ArgValue::Text(s) => ArgVal::Text(s@),
            ArgValue::Flag => ArgVal::Flag,
            ArgValue::Number(n) => ArgVal::Number(*n),
            ArgValue::Network(n) => ArgVal::Network(*n),
            ArgValue::Key(k) => ArgVal::Key(*k),
        }
    }
}

pub open spec fn opt_view(o: Option<ArgValue>) -> Option<ArgVal> {
    match o {
        Some(v) => Some(v@),
        None => None,
    }
}

pub open spec fn vals_view(v: Vec<Option<ArgValue>>) -> Seq<Option<ArgVal>> {
    v@.map_values(|o: Option<ArgValue>| opt_view(o))
}

/// What one level has read so far.
pub struct LevelStateView {
    pub values: Seq<Option<ArgVal>>,
    pub pending: Option<(OptId, Option<Seq<char>>)>,
    pub trailing: bool,
}

/// What one level has read so far: the value of each option given at the
/// level, an option whose value has not been resolved yet, and whether `--`
/// was seen.
pub struct LevelState {
    pub values: Vec<Option<ArgValue>>,
    pub pending: Option<(OptId, Option<String>)>,
    pub trailing: bool,
}

pub open spec fn pending_view(p: Option<(OptId, Option<String>)>) -> Option<(OptId, Option<Seq<char>>)> {
    match p {
        Some((o, Some(s))) => Some((o, Some(s@))),
        Some((o, None)) => Some((o, None)),
        None => None,
    }
}

impl View for LevelState {
    type V = LevelStateView;

    open spec fn view(&self) -> LevelStateView {
        LevelStateView {
            values: vals_view(self.values),
            pending: pending_view(self.pending),
            trailing: self.trailing,
        }
    }
}

pub open spec fn empty_values() -> Seq<Option<ArgVal>> {
    Seq::new(NUM_OPTS as nat, |i: int| None)
}

pub open spec fn empty_state() -> LevelStateView {
    LevelStateView { values: empty_values(), pending: None, trailing: false }
}

/// The level waits for the value of an option.
pub open spec fn awaiting(st: LevelStateView) -> bool {
    st.pending matches Some((_, None))
}

/// The value an option's text denotes.
pub open spec fn spec_parse_value(o: OptId, raw: Seq<char>) -> Result<ArgVal, CliError> {
    match o {
        OptId::ConfigFile => if raw.len() == 0 {
            Err(CliError::InvalidValue)
        } else {
            Ok(ArgVal::Text(raw))
        },
        OptId::AssertDeploySlot | OptId::Epoch => match spec_parse_u64(raw) {
            Some(n) => Ok(ArgVal::Number(n)),
            None => Err(CliError::ValueValidation),
        },
        OptId::Network => if raw == "mainnet"@ {
            Ok(ArgVal::Network(NetworkArg::Mainnet))
        } else if raw == "testnet"@ {
            Ok(ArgVal::Network(NetworkArg::Testnet))
        } else {
            Err(CliError::InvalidValue)
        },
        OptId::Claimant => match spec_parse_address(raw) {
            Some(k) => Ok(ArgVal::Key(k)),
            None => Err(CliError::ValueValidation),
        },
        _ => Ok(ArgVal::Text(raw)),
    }
}

/// Record one occurrence of an option with its value (`None`: no value given).
/// `--help` and `--version` end the parse; an option given twice at one
/// level, a missing value and a value that does not parse are errors.
pub open spec fn spec_react(vals: Seq<Option<ArgVal>>, o: OptId, raw: Option<Seq<char>>) -> Result<
    Seq<Option<ArgVal>>,
    CliError,
> {
    if o is Help {
        Err(CliError::DisplayHelp)
    } else if o is Version {
        Err(CliError::DisplayVersion)
    } else if takes_value(o) {
        match raw {
            None => Err(CliError::InvalidValue),
            Some(r) => if vals[opt_index(o)] is Some {
                Err(CliError::ArgumentConflict)
            } else {
                match spec_parse_value(o, r) {
                    Ok(v) => Ok(vals.update(opt_index(o), Some(v))),
                    Err(e) => Err(e),
                }
            },
        }
    } else if vals[opt_index(o)] is Some {
        Err(CliError::ArgumentConflict)
    } else {
        Ok(vals.update(opt_index(o), Some(ArgVal::Flag)))
    }
}

/// Record the pending option, if any.
pub open spec fn spec_resolve(st: LevelStateView) -> Result<LevelStateView, CliError> {
    match st.pending {
        None => Ok(st),
        Some((o, raw)) => match spec_react(st.values, o, raw) {
            Ok(v) => Ok(LevelStateView { values: v, pending: None, trailing: st.trailing }),
            Err(e) => Err(e),
        },
    }
}

/// Record the pending option, then a new occurrence.
pub open spec fn spec_resolve_react(st: LevelStateView, o: OptId, raw: Option<Seq<char>>) -> Result<
    LevelStateView,
    CliError,
> {
    match spec_resolve(st) {
        Err(e) => Err(e),
        Ok(s2) => match spec_react(s2.values, o, raw) {
            Ok(v) => Ok(LevelStateView { values: v, pending: None, trailing: s2.trailing }),
            Err(e) => Err(e),
        },
    }
}

pub open spec fn is_long(t: Seq<char>) -> bool {
    t.len() > 2 && t[0] == '-' && t[1] == '-'
}

pub open spec fn is_short(t: Seq<char>) -> bool {
    t.len() >= 2 && t[0] == '-' && t[1] != '-'
}

/// The error for a token that no option wants and that names no subcommand.
pub open spec fn positional_error(level: Level) -> CliError {
    if has_subcommands(level) {
        CliError::InvalidSubcommand
    } else {
        CliError::UnknownArgument
    }
}

/// The error for a token after `--`.
pub open spec fn trailing_error(level: Level, t: Seq<char>) -> CliError {
    if has_subcommands(level) {
        if spec_subcommand_of(level, t) is Some || t == "help"@ {
            CliError::UnknownArgument
        } else {
            CliError::InvalidSubcommand
        }
    } else {
        CliError::UnknownArgument
    }
}

/// What a token that names no subcommand does at a level.
pub open spec fn spec_step(level: Level, st: LevelStateView, t: Seq<char>) -> Result<
    LevelStateView,
    CliError,
> {
    if st.trailing {
        Err(trailing_error(level, t))
    } else if t == "--"@ {
        Ok(LevelStateView { trailing: true, ..st })
    } else if is_long(t) {
        let e = index_of_eq(t, 2);
        match spec_lookup_long(level, t.subrange(2, e)) {
            None => Err(CliError::UnknownArgument),
            Some(o) => if takes_value(o) {
                if e < t.len() {
                    spec_resolve_react(st, o, Some(t.subrange(e + 1, t.len() as int)))
                } else {
                    match spec_resolve(st) {
                        Err(err) => Err(err),
                        Ok(s2) => Ok(LevelStateView { pending: Some((o, None)), ..s2 }),
                    }
                }
            } else if e < t.len() {
                Err(CliError::TooManyValues)
            } else {
                spec_resolve_react(st, o, None)
            },
        }
    } else if is_short(t) {
        if t[1] == 'h' {
            spec_resolve_react(st, OptId::Help, None)
        } else if t[1] == 'V' && level is Top {
            spec_resolve_react(st, OptId::Version, None)
        } else {
            Err(CliError::UnknownArgument)
        }
    } else {
        match st.pending {
            Some((o, None)) => Ok(LevelStateView { pending: Some((o, Some(t))), ..st }),
            _ => Err(positional_error(level)),
        }
    }
}

/// `help` followed by the tokens from `j` on: help for the named subcommand
/// path, or an error for a name that is no subcommand there.
pub open spec fn spec_help_path(level: Level, toks: Seq<Seq<char>>, j: int) -> CliError
    decreases toks.len() - j,
{
    if j >= toks.len() {
        CliError::DisplayHelp
    } else {
        match spec_subcommand_of(level, toks[j]) {
            Some(s) => spec_help_path(s, toks, j + 1),
            None => CliError::InvalidSubcommand,
        }
    }
}

/// No option was given at the level.
pub open spec fn no_values(vals: Seq<Option<ArgVal>>) -> bool {
    forall|i: int| 0 <= i < vals.len() ==> #[trigger] vals[i] is None
}

pub open spec fn required_missing(level: Level, vals: Seq<Option<ArgVal>>) -> bool {
    match level {
        Level::Claim => vals[opt_index(OptId::Epoch)] is None,
        Level::Get => vals[opt_index(OptId::Epoch)] is None || vals[opt_index(OptId::Claimant)] is None,
        _ => false,
    }
}

/// The checks made when a level's tokens are all read: a required subcommand,
/// `--signer` against `--address`, required arguments.
pub open spec fn spec_validate(level: Level, vals: Seq<Option<ArgVal>>, has_sub: bool) -> Option<CliError> {
    if !has_sub && requires_subcommand(level) {
        if no_values(vals) {
            Some(CliError::DisplayHelpOnMissingArgumentOrSubcommand)
        } else {
            Some(CliError::MissingSubcommand)
        }
    } else if vals[opt_index(OptId::Signer)] is Some && vals[opt_index(OptId::Address)] is Some {
        Some(CliError::ArgumentConflict)
    } else if required_missing(level, vals) {
        Some(CliError::MissingRequiredArgument)
    } else {
        None
    }
}

/// The options given at one level.
pub type LevelRec = (Level, Seq<Option<ArgVal>>);

/// Finish a level: record its pending option, check it, and put it before the
/// levels of its subcommand.
pub open spec fn spec_finish(level: Level, st: LevelStateView, child: Option<Seq<LevelRec>>) -> Result<
    Seq<LevelRec>,
    CliError,
> {
    match spec_resolve(st) {
        Err(e) => Err(e),
        Ok(s2) => match spec_validate(level, s2.values, child is Some) {
            Some(e) => Err(e),
            None => Ok(
                seq![(level, s2.values)] + match child {
                    Some(c) => c,
                    None => Seq::<LevelRec>::empty(),
                },
            ),
        },
    }
}

/// Read the tokens from `i` on at `level`, starting from `st`.
pub open spec fn spec_parse_level(level: Level, toks: Seq<Seq<char>>, i: int, st: LevelStateView) -> Result<
    Seq<LevelRec>,
    CliError,
>
    decreases toks.len() - i,
{
    if i >= toks.len() {
        spec_finish(level, st, None)
    } else {
        let t = toks[i];
        if !st.trailing && !awaiting(st) && spec_subcommand_of(level, t) is Some {
            match spec_parse_level(spec_subcommand_of(level, t)->0, toks, i + 1, empty_state()) {
                Err(e) => Err(e),
                Ok(c) => spec_finish(level, st, Some(c)),
            }
        } else if !st.trailing && !awaiting(st) && has_subcommands(level) && t == "help"@ {
            Err(spec_help_path(level, toks, i + 1))
        } else {
            match spec_step(level, st, t) {
                Err(e) => Err(e),
                Ok(s2) => spec_parse_level(level, toks, i + 1, s2),
            }
        }
    }
}


// ---------------------------------------------------------------------------
// Executable reading of the grammar.
// ---------------------------------------------------------------------------

/// The characters of each token.
pub open spec fn toks(args: &[&str]) -> Seq<Seq<char>> {
    args@.map_values(|s: &str| s@)
}

pub fn opt_at_exec(k: usize) -> (o: OptId)
    requires
        k < NUM_OPTS,
    ensures
        o == opt_at(k as int),
        opt_index(o) == k,
{
    match k {
        0 => OptId::ConfigFile,
        1 => OptId::RpcUrl,
        2 => OptId::Commitment,
        3 => OptId::ProgramId,
        4 => OptId::Signer,
        5 => OptId::Address,
        6 => OptId::Verbose,
        7 => OptId::PrintTx,
        8 => OptId::PrintJson,
        9 => OptId::PrintJsonWithReserves,
        10 => OptId::MarkdownHelp,
        11 => OptId::AssertDeploySlot,
        12 => OptId::Nonce,
        13 => OptId::NonceAuthority,
        14 => OptId::Network,
        15 => OptId::Epoch,
        16 => OptId::Claimant,
        17 => OptId::Help,
        _ => OptId::Version,
    }
}

pub fn opt_index_exec(o: OptId) -> (r: usize)
    ensures
        r == opt_index(o),
        r < NUM_OPTS,
{
    match o {
        OptId::ConfigFile => 0,
        OptId::RpcUrl => 1,
        OptId::Commitment => 2,
        OptId::ProgramId => 3,
        OptId::Signer => 4,
        OptId::Address => 5,
        OptId::Verbose => 6,
        OptId::PrintTx => 7,
        OptId::PrintJson => 8,
        OptId::PrintJsonWithReserves => 9,
        OptId::MarkdownHelp => 10,
        OptId::AssertDeploySlot => 11,
        OptId::Nonce => 12,
        OptId::NonceAuthority => 13,
        OptId::Network => 14,
        OptId::Epoch => 15,
        OptId::Claimant => 16,
        OptId::Help => 17,
        OptId::Version => 18,
    }
}

pub fn long_name_str(o: OptId) -> (s: &'static str)
    ensures
        s@ == long_name(o),
{
    match o {
        OptId::ConfigFile => "config-file",
        OptId::RpcUrl => "rpc-url",
        OptId::Commitment => "commitment",
        OptId::ProgramId => "jito-bam-boost-program-id",
        OptId::Signer => "signer",
        OptId::Address => "address",
        OptId::Verbose => "verbose",
        OptId::PrintTx => "print-tx",
        OptId::PrintJson => "print-json",
        OptId::PrintJsonWithReserves => "print-json-with-reserves",
        OptId::MarkdownHelp => "markdown-help",
        OptId::AssertDeploySlot => "assert-deploy-slot",
        OptId::Nonce => "nonce",
        OptId::NonceAuthority => "nonce-authority",
        OptId::Network => "network",
        OptId::Epoch => "epoch",
        OptId::Claimant => "claimant",
        OptId::Help => "help",
        OptId::Version => "version",
    }
}

pub fn takes_value_exec(o: OptId) -> (r: bool)
    ensures
        r == takes_value(o),
{
    match o {
        OptId::Verbose | OptId::PrintTx | OptId::PrintJson | OptId::PrintJsonWithReserves
        | OptId::MarkdownHelp | OptId::Help | OptId::Version => false,
        _ => true,
    }
}

pub fn available_exec(o: OptId, level: Level) -> (r: bool)
    ensures
        r == available(o, level),
{
    match o {
        OptId::Network => level == Level::Claim,
        OptId::Epoch => level == Level::Claim || level == Level::Get,
        OptId::Claimant => level == Level::Get,
        OptId::Version => level == Level::Top,
        _ => true,
    }
}

/// The option the characters `start..end` of `t` name at the level.
pub fn lookup_long(level: Level, t: &str, start: usize, end: usize) -> (r: Option<OptId>)
    requires
        start <= end <= t@.len(),
    ensures
        r == spec_lookup_long(level, t@.subrange(start as int, end as int)),
{
    let ghost name = t@.subrange(start as int, end as int);
    let mut k: usize = 0;
    while k < NUM_OPTS
        invariant
            0 <= k <= NUM_OPTS,
            start <= end <= t@.len(),
            name == t@.subrange(start as int, end as int),
            spec_lookup_long(level, name) == lookup_from(level, name, k as int),
        decreases NUM_OPTS - k,
    {
        let o = opt_at_exec(k);
        if available_exec(o, level) && sub_eq(t, start, end, long_name_str(o)) {
            return Some(o);
        }
        k = k + 1;
    }
    None
}

pub fn subcommand_of(level: Level, t: &str) -> (r: Option<Level>)
    ensures
        r == spec_subcommand_of(level, t@),
{
    match level {
        Level::Top => if str_eq(t, "bam-boost") { Some(Level::BamBoost) } else { None },
        Level::BamBoost => if str_eq(t, "merkle-distributor") {
            Some(Level::MerkleDistributor)
        } else if str_eq(t, "claim-status") {
            Some(Level::ClaimStatus)
        } else {
            None
        },
        Level::MerkleDistributor => if str_eq(t, "claim") { Some(Level::Claim) } else { None },
        Level::ClaimStatus => if str_eq(t, "get") { Some(Level::Get) } else { None },
        _ => None,
    }
}

pub fn has_subcommands_exec(level: Level) -> (r: bool)
    ensures
        r == has_subcommands(level),
{
    match level {
        Level::Top | Level::BamBoost | Level::MerkleDistributor | Level::ClaimStatus => true,
        _ => false,
    }
}

pub fn requires_subcommand_exec(level: Level) -> (r: bool)
    ensures
        r == requires_subcommand(level),
{
    match level {
        Level::BamBoost | Level::MerkleDistributor | Level::ClaimStatus => true,
        _ => false,
    }
}

pub open spec fn value_result_view(r: Result<ArgValue, CliError>) -> Result<ArgVal, CliError> {
    match r {
        Ok(v) => Ok(v@),
        Err(e) => Err(e),
    }
}

/// The value an option's text denotes.
pub fn parse_value(o: OptId, raw: &str) -> (r: Result<ArgValue, CliError>)
    ensures
        value_result_view(r) == spec_parse_value(o, raw@),
        o == OptId::Network ==> names_network(raw@, value_result_view(r)),
{
    proof {
        law_network_value_names_its_cluster(raw@, NetworkArg::Mainnet);
    }
    match o {
        OptId::ConfigFile => if raw.unicode_len() == 0 {
            Err(CliError::InvalidValue)
        } else {
            Ok(ArgValue::Text(raw.to_owned()))
        },
        OptId::AssertDeploySlot | OptId::Epoch => match parse_u64(raw) {
            Some(n) => Ok(ArgValue::Number(n)),
            None => Err(CliError::ValueValidation),
        },
        OptId::Network => if str_eq(raw, "mainnet") {
            Ok(ArgValue::Network(NetworkArg::Mainnet))
        } else if str_eq(raw, "testnet") {
            Ok(ArgValue::Network(NetworkArg::Testnet))
        } else {
            Err(CliError::InvalidValue)
        },
        OptId::Claimant => match parse_address(raw) {
            Some(k) => Ok(ArgValue::Key(k)),
            None => Err(CliError::ValueValidation),
        },
        _ => Ok(ArgValue::Text(raw.to_owned())),
    }
}

pub open spec fn values_result_view(r: Result<Vec<Option<ArgValue>>, CliError>) -> Result<
    Seq<Option<ArgVal>>,
    CliError,
> {
    match r {
        Ok(v) => Ok(vals_view(v)),
        Err(e) => Err(e),
    }
}

/// Record one occurrence of an option with its value.
pub fn react(values: Vec<Option<ArgValue>>, o: OptId, raw: Option<String>) -> (r: Result<
    Vec<Option<ArgValue>>,
    CliError,
>)
    requires
        values@.len() == NUM_OPTS,
    ensures
        values_result_view(r) == spec_react(
            vals_view(values),
            o,
            match raw {
                Some(s) => Some(s@),
                None => None,
            },
        ),
        r matches Ok(v) ==> v@.len() == NUM_OPTS,
{
    let mut values = values;
    let ghost old_vals = vals_view(values);
    if o == OptId::Help {
        return Err(CliError::DisplayHelp);
    }
    if o == OptId::Version {
        return Err(CliError::DisplayVersion);
    }
    let idx = opt_index_exec(o);
    let present = values[idx].is_some();
    assert(present == (old_vals[idx as int] is Some));
    if takes_value_exec(o) {
        match raw {
            None => Err(CliError::InvalidValue),
            Some(text) => {
                if present {
                    return Err(CliError::ArgumentConflict);
                }
                match parse_value(o, text.as_str()) {
                    Ok(v) => {
                        let ghost vv = v@;
                        values[idx] = Some(v);
                        assert(vals_view(values) =~= old_vals.update(idx as int, Some(vv)));
                        Ok(values)
                    },
                    Err(e) => Err(e),
                }
            },
        }
    } else {
        if present {
            return Err(CliError::ArgumentConflict);
        }
        values[idx] = Some(ArgValue::Flag);
        assert(vals_view(values) =~= old_vals.update(idx as int, Some(ArgVal::Flag)));
        Ok(values)
    }
}

pub open spec fn state_result_view(r: Result<LevelState, CliError>) -> Result<LevelStateView, CliError> {
    match r {
        Ok(s) => Ok(s@),
        Err(e) => Err(e),
    }
}

/// The state's table holds one entry per option.
pub open spec fn state_wf(st: LevelState) -> bool {
    st.values@.len() == NUM_OPTS
}

/// Record the pending option, if any.
pub fn resolve(st: LevelState) -> (r: Result<LevelState, CliError>)
    requires
        state_wf(st),
    ensures
        state_result_view(r) == spec_resolve(st@),
        r matches Ok(s) ==> state_wf(s) && s.pending is None,
{
    let LevelState { values, pending, trailing } = st;
    match pending {
        None => Ok(LevelState { values, pending: None, trailing }),
        Some((o, raw)) => match react(values, o, raw) {
            Ok(v) => Ok(LevelState { values: v, pending: None, trailing }),
            Err(e) => Err(e),
        },
    }
}

/// Record the pending option, then a new occurrence.
pub fn resolve_react(st: LevelState, o: OptId, raw: Option<String>) -> (r: Result<LevelState, CliError>)
    requires
        state_wf(st),
    ensures
        state_result_view(r) == spec_resolve_react(
            st@,
            o,
            match raw {
                Some(s) => Some(s@),
                None => None,
            },
        ),
        r matches Ok(s) ==> state_wf(s),
{
    match resolve(st) {
        Err(e) => Err(e),
        Ok(s2) => {
            let LevelState { values, pending, trailing } = s2;
            match react(values, o, raw) {
                Ok(v) => Ok(LevelState { values: v, pending: None, trailing }),
                Err(e) => Err(e),
            }
        },
    }
}

/// What a token that names no subcommand does at a level.
pub fn step(level: Level, st: LevelState, t: &str) -> (r: Result<LevelState, CliError>)
    requires
        state_wf(st),
    ensures
        state_result_view(r) == spec_step(level, st@, t@),
        r matches Ok(s) ==> state_wf(s),
{
    let n = t.unicode_len();
    if st.trailing {
        return Err(trailing_error_exec(level, t));
    }
    if str_eq(t, "--") {
        let LevelState { values, pending, trailing } = st;
        return Ok(LevelState { values, pending, trailing: true });
    }
    if n > 2 && t.get_char(0) == '-' && t.get_char(1) == '-' {
        let e = find_eq(t, 2);
        match lookup_long(level, t, 2, e) {
            None => Err(CliError::UnknownArgument),
            Some(o) => {
                if takes_value_exec(o) {
                    if e < n {
                        let v = t.substring_char(e + 1, n).to_owned();
                        resolve_react(st, o, Some(v))
                    } else {
                        match resolve(st) {
                            Err(err) => Err(err),
                            Ok(s2) => {
                                let LevelState { values, pending, trailing } = s2;
                                Ok(LevelState { values, pending: Some((o, None)), trailing })
                            },
                        }
                    }
                } else if e < n {
                    Err(CliError::TooManyValues)
                } else {
                    resolve_react(st, o, None)
                }
            },
        }
    } else if n >= 2 && t.get_char(0) == '-' && t.get_char(1) != '-' {
        let c = t.get_char(1);
        if c == 'h' {
            resolve_react(st, OptId::Help, None)
        } else if c == 'V' && level == Level::Top {
            resolve_react(st, OptId::Version, None)
        } else {
            Err(CliError::UnknownArgument)
        }
    } else {
        let LevelState { values, pending, trailing } = st;
        match pending {
            Some((o, None)) => Ok(LevelState { values, pending: Some((o, Some(t.to_owned()))), trailing }),
            _ => Err(positional_error_exec(level)),
        }
    }
}

pub fn positional_error_exec(level: Level) -> (r: CliError)
    ensures
        r == positional_error(level),
{
    if has_subcommands_exec(level) {
        CliError::InvalidSubcommand
    } else {
        CliError::UnknownArgument
    }
}

pub fn trailing_error_exec(level: Level, t: &str) -> (r: CliError)
    ensures
        r == trailing_error(level, t@),
{
    if has_subcommands_exec(level) {
        if subcommand_of(level, t).is_some() || str_eq(t, "help") {
            CliError::UnknownArgument
        } else {
            CliError::InvalidSubcommand
        }
    } else {
        CliError::UnknownArgument
    }
}


/// `help` followed by `args[j..]`.
pub fn help_path(level: Level, args: &[&str], j: usize) -> (r: CliError)
    requires
        j <= args@.len(),
    ensures
        r == spec_help_path(level, toks(args), j as int),
{
    let mut cur = level;
    let mut k = j;
    while k < args.len()
        invariant
            j <= k <= args@.len(),
            spec_help_path(level, toks(args), j as int) == spec_help_path(cur, toks(args), k as int),
        decreases args@.len() - k,
    {
        assert(toks(args)[k as int] == args@[k as int]@);
        match subcommand_of(cur, args[k]) {
            Some(s) => {
                cur = s;
            },
            None => {
                return CliError::InvalidSubcommand;
            },
        }
        k = k + 1;
    }
    CliError::DisplayHelp
}

/// No option was given at the level.
pub fn no_values_exec(vals: &Vec<Option<ArgValue>>) -> (r: bool)
    ensures
        r == no_values(vals_view(*vals)),
{
    let mut i: usize = 0;
    while i < vals.len()
        invariant
            0 <= i <= vals@.len(),
            forall|j: int| 0 <= j < i ==> #[trigger] vals_view(*vals)[j] is None,
        decreases vals@.len() - i,
    {
        if vals[i].is_some() {
            assert(vals_view(*vals)[i as int] is Some);
            return false;
        }
        i = i + 1;
    }
    true
}

/// The checks made when a level's tokens are all read.
pub fn validate(level: Level, vals: &Vec<Option<ArgValue>>, has_sub: bool) -> (r: Option<CliError>)
    requires
        vals@.len() == NUM_OPTS,
    ensures
        r == spec_validate(level, vals_view(*vals), has_sub),
{
    let ghost vv = vals_view(*vals);
    if !has_sub && requires_subcommand_exec(level) {
        if no_values_exec(vals) {
            return Some(CliError::DisplayHelpOnMissingArgumentOrSubcommand);
        } else {
            return Some(CliError::MissingSubcommand);
        }
    }
    let signer = vals[opt_index_exec(OptId::Signer)].is_some();
    let address = vals[opt_index_exec(OptId::Address)].is_some();
    assert(signer == (vv[opt_index(OptId::Signer)] is Some));
    assert(address == (vv[opt_index(OptId::Address)] is Some));
    if signer && address {
        return Some(CliError::ArgumentConflict);
    }
    let epoch = vals[opt_index_exec(OptId::Epoch)].is_some();
    let claimant = vals[opt_index_exec(OptId::Claimant)].is_some();
    assert(epoch == (vv[opt_index(OptId::Epoch)] is Some));
    assert(claimant == (vv[opt_index(OptId::Claimant)] is Some));
    let missing = match level {
        Level::Claim => !epoch,
        Level::Get => !epoch || !claimant,
        _ => false,
    };
    if missing {
        Some(CliError::MissingRequiredArgument)
    } else {
        None
    }
}

/// The options given at one level.
pub struct LevelMatches {
    pub level: Level,
    pub values: Vec<Option<ArgValue>>,
}

impl View for LevelMatches {
    type V = LevelRec;

    open spec fn view(&self) -> LevelRec {
        (self.level, vals_view(self.values))
    }
}

pub open spec fn levels_view(v: Vec<LevelMatches>) -> Seq<LevelRec> {
    v@.map_values(|m: LevelMatches| m@)
}

pub open spec fn levels_result_view(r: Result<Vec<LevelMatches>, CliError>) -> Result<
    Seq<LevelRec>,
    CliError,
> {
    match r {
        Ok(v) => Ok(levels_view(v)),
        Err(e) => Err(e),
    }
}

/// Every level's table holds one entry per option.
pub open spec fn levels_wf(v: Vec<LevelMatches>) -> bool {
    forall|k: int| 0 <= k < v@.len() ==> (#[trigger] v@[k]).values@.len() == NUM_OPTS
}

/// Finish a level and put it before the levels of its subcommand.
pub fn finish(level: Level, st: LevelState, child: Option<Vec<LevelMatches>>) -> (r: Result<
    Vec<LevelMatches>,
    CliError,
>)
    requires
        state_wf(st),
    ensures
        levels_result_view(r) == spec_finish(
            level,
            st@,
            match child {
                Some(c) => Some(levels_view(c)),
                None => None,
            },
        ),
        r matches Ok(v) ==> (child matches Some(c) ==> levels_wf(c)) ==> levels_wf(v),
{
    match resolve(st) {
        Err(e) => Err(e),
        Ok(s2) => {
            let has_sub = child.is_some();
            match validate(level, &s2.values, has_sub) {
                Some(e) => Err(e),
                None => {
                    let mut out: Vec<LevelMatches> = Vec::new();
                    out.push(LevelMatches { level, values: s2.values });
                    match child {
                        Some(c) => {
                            let mut c = c;
                            let ghost cv = levels_view(c);
                            let ghost c0 = c@;
                            out.append(&mut c);
                            assert(levels_view(out) =~= seq![(level, s2@.values)] + cv);
                            assert(c0 == out@.subrange(1, out@.len() as int));
                        },
                        None => {
                            assert(levels_view(out) =~= seq![(level, s2@.values)]);
                        },
                    }
                    Ok(out)
                },
            }
        },
    }
}

/// Read `args[i..]` at `level`, starting from `st`.
pub fn parse_level(level: Level, args: &[&str], i: usize, st: LevelState) -> (r: Result<
    Vec<LevelMatches>,
    CliError,
>)
    requires
        i <= args@.len(),
        state_wf(st),
    ensures
        levels_result_view(r) == spec_parse_level(level, toks(args), i as int, st@),
        r matches Ok(v) ==> levels_wf(v),
    decreases args@.len() - i,
{
    let ghost st0 = st@;
    let mut cur = st;
    let mut k = i;
    while k < args.len()
        invariant
            st0 == st@,
            i <= k <= args@.len(),
            state_wf(cur),
            spec_parse_level(level, toks(args), i as int, st0) == spec_parse_level(level, toks(args), k as int, cur@),
        decreases args@.len() - k,
    {
        let t = args[k];
        assert(toks(args)[k as int] == t@);
        let awaiting_value = match &cur.pending {
            Some((_, None)) => true,
            _ => false,
        };
        if !cur.trailing && !awaiting_value {
            match subcommand_of(level, t) {
                Some(sub) => {
                    let empty = new_state();
                    let child = parse_level(sub, args, k + 1, empty);
                    match child {
                        Err(e) => {
                            return Err(e);
                        },
                        Ok(c) => {
                            return finish(level, cur, Some(c));
                        },
                    }
                },
                None => {},
            }
            if has_subcommands_exec(level) && str_eq(t, "help") {
                return Err(help_path(level, args, k + 1));
            }
        }
        match step(level, cur, t) {
            Err(e) => {
                return Err(e);
            },
            Ok(s2) => {
                cur = s2;
            },
        }
        k = k + 1;
    }
    finish(level, cur, None)
}

/// A level that has read nothing.
pub fn new_state() -> (st: LevelState)
    ensures
        st@ == empty_state(),
        state_wf(st),
{
    let mut values: Vec<Option<ArgValue>> = Vec::new();
    let mut i: usize = 0;
    while i < NUM_OPTS
        invariant
            0 <= i <= NUM_OPTS,
            values@.len() == i,
            forall|j: int| 0 <= j < i ==> #[trigger] values@[j] is None,
        decreases NUM_OPTS - i,
    {
        values.push(None);
        i = i + 1;
    }
    let st = LevelState { values, pending: None, trailing: false };
    assert(st@.values =~= empty_values());
    st
}

} // verus!
