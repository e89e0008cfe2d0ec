//! Laws of the command-line grammar.

use vstd::prelude::*;
use crate::bam_boost::{BamBoostCommands, MerkleDistributorActions, NetworkArg};
use crate::cli_args::{default_rpc_url, innermost, spec_command, spec_try_parse_from, CliView, ProgramCommand};
use crate::cli_grammar::{
    spec_finish, spec_validate,
    available, awaiting, empty_state, has_subcommands, is_long, is_short, long_name, lookup_from, opt_at,
    opt_index, spec_lookup_long, spec_parse_level, spec_react, spec_resolve, spec_resolve_react,
    spec_step, spec_subcommand_of, takes_value, ArgVal, Level, LevelRec, LevelStateView, OptId,
    NUM_OPTS,
};
use crate::cli_args::CliError;
use crate::cli_grammar::spec_parse_value;
use crate::handler::spec_network_name;
use crate::text::{index_of_eq, lemma_index_of_eq_bounds};

verus! {

/// The text given to `--network` names the parsed network: a value that
/// parses is the network whose cluster name is the text, and each cluster
/// name parses.
pub open spec fn names_network(raw: Seq<char>, r: Result<ArgVal, CliError>) -> bool {
    &&& r matches Ok(v) ==> v matches ArgVal::Network(m) && spec_network_name(m) == raw
    &&& (raw == spec_network_name(NetworkArg::Mainnet) || raw == spec_network_name(NetworkArg::Testnet)) ==> r is Ok
}

/// Law: the value of `--network` is the network whose cluster name is the
/// given text (`mainnet` or `testnet`); any other text is an invalid value.
pub proof fn law_network_value_names_its_cluster(raw: Seq<char>, network: NetworkArg)
    ensures
        names_network(raw, spec_parse_value(OptId::Network, raw)),
        raw == spec_network_name(network) ==> spec_parse_value(OptId::Network, raw) == Ok::<ArgVal, CliError>(
            ArgVal::Network(network),
        ),
        raw != spec_network_name(NetworkArg::Mainnet) && raw != spec_network_name(NetworkArg::Testnet)
            ==> spec_parse_value(OptId::Network, raw) == Err::<ArgVal, CliError>(CliError::InvalidValue),
        spec_network_name(NetworkArg::Mainnet) == "mainnet"@,
        spec_network_name(NetworkArg::Testnet) == "testnet"@,
{
    reveal_strlit("mainnet");
    reveal_strlit("testnet");
    assert("mainnet"@ != "testnet"@) by {
        assert("mainnet"@[0] != "testnet"@[0]);
    }
}

/// The token is the long option `--<name of o>`, with or without `=value`.
pub open spec fn names_option(t: Seq<char>, o: OptId) -> bool {
    is_long(t) && t.subrange(2, index_of_eq(t, 2)) == long_name(o)
}

/// No token from `i` on names the option.
pub open spec fn never_named_from(toks: Seq<Seq<char>>, i: int, o: OptId) -> bool {
    forall|j: int| i <= j < toks.len() ==> !names_option(#[trigger] toks[j], o)
}

proof fn lemma_opt_at_index(o: OptId)
    ensures
        opt_at(opt_index(o)) == o,
        0 <= opt_index(o) < NUM_OPTS,
{
}

proof fn lemma_opt_index_injective(a: OptId, b: OptId)
    requires
        a != b,
    ensures
        opt_index(a) != opt_index(b),
{
    lemma_opt_at_index(a);
    lemma_opt_at_index(b);
}

proof fn lemma_lookup_names(level: Level, name: Seq<char>, k: int)
    requires
        lookup_from(level, name, k) is Some,
    ensures
        long_name(lookup_from(level, name, k)->0) == name,
    decreases NUM_OPTS - k,
{
    if k < NUM_OPTS && !(available(opt_at(k), level) && long_name(opt_at(k)) == name) {
        lemma_lookup_names(level, name, k + 1);
    }
}

/// The option's entry is empty and nothing pending is about it.
pub open spec fn untouched(st: LevelStateView, o: OptId) -> bool {
    &&& st.values.len() == NUM_OPTS
    &&& st.values[opt_index(o)] is None
    &&& !(st.pending matches Some((p, _)) && p == o)
}

proof fn lemma_react_untouched(vals: Seq<Option<ArgVal>>, p: OptId, raw: Option<Seq<char>>, o: OptId)
    requires
        p != o,
        vals.len() == NUM_OPTS,
        vals[opt_index(o)] is None,
        spec_react(vals, p, raw) is Ok,
    ensures
        spec_react(vals, p, raw)->Ok_0.len() == NUM_OPTS,
        spec_react(vals, p, raw)->Ok_0[opt_index(o)] is None,
{
    lemma_opt_index_injective(p, o);
    lemma_opt_at_index(p);
}

proof fn lemma_resolve_untouched(st: LevelStateView, o: OptId)
    requires
        untouched(st, o),
        spec_resolve(st) is Ok,
    ensures
        untouched(spec_resolve(st)->Ok_0, o),
        spec_resolve(st)->Ok_0.trailing == st.trailing,
        spec_resolve(st)->Ok_0.pending is None,
{
    if let Some((p, raw)) = st.pending {
        lemma_react_untouched(st.values, p, raw, o);
    }
}

proof fn lemma_resolve_react_untouched(st: LevelStateView, p: OptId, raw: Option<Seq<char>>, o: OptId)
    requires
        untouched(st, o),
        p != o,
        spec_resolve_react(st, p, raw) is Ok,
    ensures
        untouched(spec_resolve_react(st, p, raw)->Ok_0, o),
{
    lemma_resolve_untouched(st, o);
    lemma_react_untouched(spec_resolve(st)->Ok_0.values, p, raw, o);
}

proof fn lemma_step_untouched(level: Level, st: LevelStateView, t: Seq<char>, o: OptId)
    requires
        untouched(st, o),
        !names_option(t, o),
        o != OptId::Help,
        o != OptId::Version,
        spec_step(level, st, t) is Ok,
    ensures
        untouched(spec_step(level, st, t)->Ok_0, o),
{
    if !st.trailing && t != "--"@ && is_long(t) {
        let e = index_of_eq(t, 2);
        lemma_index_of_eq_bounds(t, 2);
        let name = t.subrange(2, e);
        if let Some(p) = spec_lookup_long(level, name) {
            lemma_lookup_names(level, name, 0);
            assert(p != o);
            if takes_value(p) {
                if e < t.len() {
                    lemma_resolve_react_untouched(st, p, Some(t.subrange(e + 1, t.len() as int)), o);
                } else {
                    lemma_resolve_untouched(st, o);
                }
            } else if e >= t.len() {
                lemma_resolve_react_untouched(st, p, None, o);
            }
        }
    } else if !st.trailing && t != "--"@ && is_short(t) {
        if t[1] == 'h' {
            lemma_resolve_react_untouched(st, OptId::Help, None, o);
        } else if t[1] == 'V' && level is Top {
            lemma_resolve_react_untouched(st, OptId::Version, None, o);
        }
    }
}

proof fn lemma_empty_untouched(o: OptId)
    ensures
        untouched(empty_state(), o),
{
    lemma_opt_at_index(o);
}

/// Every level of a successful parse leaves an option untouched that no
/// token names.
proof fn lemma_parse_level_untouched(level: Level, toks: Seq<Seq<char>>, i: int, st: LevelStateView, o: OptId)
    requires
        untouched(st, o),
        never_named_from(toks, i, o),
        o != OptId::Help,
        o != OptId::Version,
        spec_parse_level(level, toks, i, st) is Ok,
    ensures
        forall|k: int|
            0 <= k < spec_parse_level(level, toks, i, st)->Ok_0.len() ==> (#[trigger] spec_parse_level(
                level,
                toks,
                i,
                st,
            )->Ok_0[k]).1[opt_index(o)] is None,
    decreases toks.len() - i,
{
    let r = spec_parse_level(level, toks, i, st);
    if i >= toks.len() {
        lemma_resolve_untouched(st, o);
        assert(r->Ok_0 =~= seq![(level, spec_resolve(st)->Ok_0.values)]);
    } else {
        let t = toks[i];
        if !st.trailing && !awaiting(st) && spec_subcommand_of(level, t) is Some {
            let sub = spec_subcommand_of(level, t)->0;
            lemma_empty_untouched(o);
            lemma_parse_level_untouched(sub, toks, i + 1, empty_state(), o);
            let c = spec_parse_level(sub, toks, i + 1, empty_state())->Ok_0;
            lemma_resolve_untouched(st, o);
            assert(r->Ok_0 =~= seq![(level, spec_resolve(st)->Ok_0.values)] + c);
            assert forall|k: int| 0 <= k < r->Ok_0.len() implies (#[trigger] r->Ok_0[k]).1[opt_index(o)] is None by {
                if k > 0 {
                    assert(r->Ok_0[k] == c[k - 1]);
                }
            }
        } else if !st.trailing && !awaiting(st) && has_subcommands(level) && t == "help"@ {
        } else {
            assert(!names_option(toks[i], o));
            lemma_step_untouched(level, st, t, o);
            lemma_parse_level_untouched(level, toks, i + 1, spec_step(level, st, t)->Ok_0, o);
        }
    }
}

proof fn lemma_innermost_none(levels: Seq<LevelRec>, idx: int)
    requires
        forall|k: int| 0 <= k < levels.len() ==> (#[trigger] levels[k]).1[idx] is None,
    ensures
        innermost(levels, idx) is None,
    decreases levels.len(),
{
    if levels.len() > 0 {
        assert(levels.last() == levels[levels.len() - 1]);
        lemma_innermost_none(levels.drop_last(), idx);
    }
}

/// Law: when no token of the command line is `--rpc-url`, a parsed command
/// line uses the mainnet RPC URL.
pub proof fn law_rpc_url_defaults_to_mainnet(args: Seq<Seq<char>>)
    requires
        never_named_from(args, 1, OptId::RpcUrl),
        spec_try_parse_from(args) is Ok,
    ensures
        spec_try_parse_from(args)->Ok_0.rpc_url == Some(default_rpc_url()),
{
    lemma_empty_untouched(OptId::RpcUrl);
    lemma_parse_level_untouched(Level::Top, args, 1, empty_state(), OptId::RpcUrl);
    lemma_innermost_none(spec_parse_level(Level::Top, args, 1, empty_state())->Ok_0, opt_index(OptId::RpcUrl));
}


/// Law: when no token of the command line is `--network`, a parsed claim is
/// made against mainnet.
pub proof fn law_network_defaults_to_mainnet(args: Seq<Seq<char>>)
    requires
        never_named_from(args, 1, OptId::Network),
        spec_try_parse_from(args) is Ok,
    ensures
        spec_try_parse_from(args)->Ok_0.command matches Some(ProgramCommand::BamBoost {
            action: BamBoostCommands::MerkleDistributor {
                action: MerkleDistributorActions::Claim { network, .. },
            },
        }) ==> network == NetworkArg::Mainnet,
{
    lemma_empty_untouched(OptId::Network);
    lemma_parse_level_untouched(Level::Top, args, 1, empty_state(), OptId::Network);
    let levels = spec_parse_level(Level::Top, args, 1, empty_state())->Ok_0;
    if levels.len() == 4 {
        assert(levels[3].1[opt_index(OptId::Network)] is None);
    }
}

/// The kind of value each option holds.
pub open spec fn kind_ok(o: OptId, v: ArgVal) -> bool {
    match o {
        OptId::AssertDeploySlot | OptId::Epoch => v is Number,
        OptId::Network => v is Network,
        OptId::Claimant => v is Key,
        OptId::Verbose | OptId::PrintTx | OptId::PrintJson | OptId::PrintJsonWithReserves
        | OptId::MarkdownHelp | OptId::Help | OptId::Version => v is Flag,
        _ => v is Text,
    }
}

/// A level's table: one entry per option, each of the option's kind.
pub open spec fn vals_wf(vals: Seq<Option<ArgVal>>) -> bool {
    &&& vals.len() == NUM_OPTS
    &&& forall|i: int| 0 <= i < NUM_OPTS && #[trigger] vals[i] is Some ==> kind_ok(opt_at(i), vals[i]->0)
}

proof fn lemma_react_wf(vals: Seq<Option<ArgVal>>, p: OptId, raw: Option<Seq<char>>)
    requires
        vals_wf(vals),
        spec_react(vals, p, raw) is Ok,
    ensures
        vals_wf(spec_react(vals, p, raw)->Ok_0),
{
    lemma_opt_at_index(p);
    let v = spec_react(vals, p, raw)->Ok_0;
    assert forall|i: int| 0 <= i < NUM_OPTS && #[trigger] v[i] is Some implies kind_ok(opt_at(i), v[i]->0) by {
        if i != opt_index(p) {
            assert(v[i] == vals[i]);
        }
    }
}

proof fn lemma_resolve_wf(st: LevelStateView)
    requires
        vals_wf(st.values),
        spec_resolve(st) is Ok,
    ensures
        vals_wf(spec_resolve(st)->Ok_0.values),
{
    if let Some((p, raw)) = st.pending {
        lemma_react_wf(st.values, p, raw);
    }
}

proof fn lemma_resolve_react_wf(st: LevelStateView, p: OptId, raw: Option<Seq<char>>)
    requires
        vals_wf(st.values),
        spec_resolve_react(st, p, raw) is Ok,
    ensures
        vals_wf(spec_resolve_react(st, p, raw)->Ok_0.values),
{
    lemma_resolve_wf(st);
    lemma_react_wf(spec_resolve(st)->Ok_0.values, p, raw);
}

proof fn lemma_step_wf(level: Level, st: LevelStateView, t: Seq<char>)
    requires
        vals_wf(st.values),
        spec_step(level, st, t) is Ok,
    ensures
        vals_wf(spec_step(level, st, t)->Ok_0.values),
{
    if !st.trailing && t != "--"@ && is_long(t) {
        let e = index_of_eq(t, 2);
        lemma_index_of_eq_bounds(t, 2);
        if let Some(p) = spec_lookup_long(level, t.subrange(2, e)) {
            if takes_value(p) {
                if e < t.len() {
                    lemma_resolve_react_wf(st, p, Some(t.subrange(e + 1, t.len() as int)));
                } else {
                    lemma_resolve_wf(st);
                }
            } else if e >= t.len() {
                lemma_resolve_react_wf(st, p, None);
            }
        }
    } else if !st.trailing && t != "--"@ && is_short(t) {
        if t[1] == 'h' {
            lemma_resolve_react_wf(st, OptId::Help, None);
        } else if t[1] == 'V' && level is Top {
            lemma_resolve_react_wf(st, OptId::Version, None);
        }
    }
}

/// The subcommand levels under each level.
pub open spec fn is_child(parent: Level, child: Level) -> bool {
    match parent {
        Level::Top => child is BamBoost,
        Level::BamBoost => child is MerkleDistributor || child is ClaimStatus,
        Level::MerkleDistributor => child is Claim,
        Level::ClaimStatus => child is Get,
        _ => false,
    }
}

/// A chain of levels from `level` down, each checked, each the subcommand of
/// the one before.
pub open spec fn chain_ok(level: Level, levels: Seq<LevelRec>) -> bool
    decreases levels.len(),
{
    &&& levels.len() >= 1
    &&& levels[0].0 == level
    &&& vals_wf(levels[0].1)
    &&& spec_validate(level, levels[0].1, levels.len() > 1) is None
    &&& levels.len() > 1 ==> is_child(level, levels[1].0) && chain_ok(levels[1].0, levels.drop_first())
}

proof fn lemma_finish_chain(level: Level, st: LevelStateView, child: Option<Seq<LevelRec>>)
    requires
        vals_wf(st.values),
        spec_finish(level, st, child) is Ok,
        child matches Some(c) ==> c.len() >= 1 && is_child(level, c[0].0) && chain_ok(c[0].0, c),
    ensures
        chain_ok(level, spec_finish(level, st, child)->Ok_0),
{
    lemma_resolve_wf(st);
    let s2 = spec_resolve(st)->Ok_0;
    let r = spec_finish(level, st, child)->Ok_0;
    match child {
        Some(c) => {
            assert(r =~= seq![(level, s2.values)] + c);
            assert(r.drop_first() =~= c);
        },
        None => {
            assert(r =~= seq![(level, s2.values)]);
        },
    }
}

proof fn lemma_empty_wf()
    ensures
        vals_wf(empty_state().values),
{
}

/// A successful parse of a level is a checked chain of levels.
proof fn lemma_parse_level_chain(level: Level, toks: Seq<Seq<char>>, i: int, st: LevelStateView)
    requires
        vals_wf(st.values),
        spec_parse_level(level, toks, i, st) is Ok,
    ensures
        chain_ok(level, spec_parse_level(level, toks, i, st)->Ok_0),
    decreases toks.len() - i,
{
    if i >= toks.len() {
        lemma_finish_chain(level, st, None);
    } else {
        let t = toks[i];
        if !st.trailing && !awaiting(st) && spec_subcommand_of(level, t) is Some {
            let sub = spec_subcommand_of(level, t)->0;
            lemma_empty_wf();
            lemma_parse_level_chain(sub, toks, i + 1, empty_state());
            lemma_finish_chain(level, st, Some(spec_parse_level(sub, toks, i + 1, empty_state())->Ok_0));
        } else if !st.trailing && !awaiting(st) && has_subcommands(level) && t == "help"@ {
        } else {
            lemma_step_wf(level, st, t);
            lemma_parse_level_chain(level, toks, i + 1, spec_step(level, st, t)->Ok_0);
        }
    }
}

/// A checked chain from the top is either the top level alone or a complete
/// path to an action, whose arguments are all there.
proof fn lemma_top_chain_shape(levels: Seq<LevelRec>)
    requires
        chain_ok(Level::Top, levels),
    ensures
        levels.len() == 1 || (levels.len() == 4 && spec_command(levels) is Some),
{
    if levels.len() > 1 {
        let l1 = levels.drop_first();
        assert(chain_ok(l1[0].0, l1));
        let l2 = l1.drop_first();
        assert(chain_ok(l2[0].0, l2));
        let l3 = l2.drop_first();
        assert(chain_ok(l3[0].0, l3));
        assert(l3.len() == 1);
        assert(levels[3] == l3[0]);
        let leaf = l3[0].1;
        lemma_opt_at_index(OptId::Epoch);
        lemma_opt_at_index(OptId::Claimant);
        assert(leaf[opt_index(OptId::Epoch)] is Some);
        assert(kind_ok(OptId::Epoch, leaf[opt_index(OptId::Epoch)]->0));
        if l3[0].0 is Get {
            assert(leaf[opt_index(OptId::Claimant)] is Some);
            assert(kind_ok(OptId::Claimant, leaf[opt_index(OptId::Claimant)]->0));
        }
    }
}

/// Law (`--address` is mutually exclusive with `--signer`): a parsed command
/// line without a subcommand never has both a signer and an address.
pub proof fn law_signer_address_exclusive_at_top(args: Seq<Seq<char>>)
    requires
        spec_try_parse_from(args) is Ok,
        spec_try_parse_from(args)->Ok_0.command is None,
    ensures
        !(spec_try_parse_from(args)->Ok_0.signer is Some && spec_try_parse_from(args)->Ok_0.address is Some),
{
    lemma_empty_wf();
    lemma_parse_level_chain(Level::Top, args, 1, empty_state());
    let levels = spec_parse_level(Level::Top, args, 1, empty_state())->Ok_0;
    lemma_top_chain_shape(levels);
    assert(levels.len() == 1);
    assert(levels.drop_last().len() == 0);
    assert(levels.last() == levels[0]);
    assert(chain_ok(Level::Top, levels));
    let si = opt_index(OptId::Signer);
    let ai = opt_index(OptId::Address);
    assert(innermost(levels.drop_last(), si) is None);
    assert(innermost(levels.drop_last(), ai) is None);
    assert(innermost(levels, si) == levels[0].1[si]);
    assert(innermost(levels, ai) == levels[0].1[ai]);
}


/// The parsed field of a global option holds its default: absent, `false`,
/// or the mainnet RPC URL.
pub open spec fn field_is_default(cli: CliView, o: OptId) -> bool {
    match o {
        OptId::ConfigFile => cli.config_file is None,
        OptId::RpcUrl => cli.rpc_url == Some(default_rpc_url()),
        OptId::Commitment => cli.commitment is None,
        OptId::ProgramId => cli.jito_bam_boost_program_id is None,
        OptId::Signer => cli.signer is None,
        OptId::Address => cli.address is None,
        OptId::Verbose => !cli.verbose,
        OptId::PrintTx => !cli.print_tx,
        OptId::PrintJson => !cli.print_json,
        OptId::PrintJsonWithReserves => !cli.print_json_with_reserves,
        OptId::MarkdownHelp => !cli.markdown_help,
        OptId::AssertDeploySlot => cli.assert_deploy_slot is None,
        OptId::Nonce => cli.nonce is None,
        OptId::NonceAuthority => cli.nonce_authority is None,
        _ => true,
    }
}

/// Law: a global option that no token of the command line names keeps its
/// default in a parsed command line, at whatever level the others stand.
pub proof fn law_unnamed_option_keeps_default(args: Seq<Seq<char>>, o: OptId)
    requires
        never_named_from(args, 1, o),
        o != OptId::Help,
        o != OptId::Version,
        spec_try_parse_from(args) is Ok,
    ensures
        field_is_default(spec_try_parse_from(args)->Ok_0, o),
{
    lemma_empty_untouched(o);
    lemma_parse_level_untouched(Level::Top, args, 1, empty_state(), o);
    lemma_innermost_none(spec_parse_level(Level::Top, args, 1, empty_state())->Ok_0, opt_index(o));
}

} // verus!
