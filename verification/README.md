# jito_bam_boost_cli

A command-line client for claiming BAM Boost subsidies, with its decisions
proved by Verus.

`src/` is the verified library:

- `cli_args`, `cli_grammar`, `text`: the command line. `Cli::try_parse_from`
  is proved equal to a level-by-level grammar (`spec_try_parse_from`) of long
  options, `=` values, flags, `--`, help and version, required subcommands
  and arguments, and per-level duplicate and `--signer`/`--address`
  conflicts. That grammar is written to match clap's parsing of this command
  tree; the agreement is not proved but tested: `tests/cli_matches_clap.rs`
  runs clap and the library on the same command lines and compares them.
  `cli_laws` proves defaults and the signer/address exclusion.
- `lighthouse`: the Lighthouse deploy-slot guard instruction and its data.
- `handler`: the handler's state, claimant resolution, print mode, program
  derived addresses, nonce hash extraction, merkle tree URL and the ordered
  instruction list of a claim.
- `claim_flow`: `handle`, which starts a `bam-boost` command, and the claim as
  a state machine of decisions; the caller performs the network, signing and
  printing actions.
- `transaction`: unsigned transaction framing and its base58 text.
- `address`, `programs`: calls into `solana_pubkey`,
  `solana_system_interface`, `spl_associated_token_account_interface` and
  `spl_token_interface`, each behind a contract.
- `laws`: laws of the instruction data, the claim and the framing.

`app/` holds `main`, the clap description used for help texts, and the runner
that performs RPC calls, downloads, signing and printing.
