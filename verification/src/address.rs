//! Account addresses: base58 text form and program derived addresses, both
//! computed by `solana_pubkey`.

use vstd::prelude::*;
use core::str::FromStr;

verus! {

/// The address that `Pubkey::from_str` decodes from the text `s`, or `None`
/// when it refuses the text.
pub uninterp spec fn spec_parse_address(s: Seq<char>) -> Option<[u8; 32]>;

/// Decode a base58 address with `solana_pubkey::Pubkey::from_str`.
///
/// Trusted: the result is the named result of `Pubkey::from_str` on the text;
/// the one fact stated beside it is that texts longer than 44 characters are
/// refused (the source rejects more than 44 bytes before decoding).
#[verifier::external_body]
pub(crate) fn parse_address(s: &str) -> (r: Option<[u8; 32]>)
    ensures
        r == spec_parse_address(s@),
        s@.len() > 44 ==> r is None,
{
    solana_pubkey::Pubkey::from_str(s).ok().map(|k| k.to_bytes())
}

/// The program derived address and bump seed that
/// `Pubkey::try_find_program_address` finds for `seeds` under `program_id`,
/// or `None` when it finds none.
pub uninterp spec fn spec_try_find_program_address(
    seeds: Seq<Seq<u8>>,
    program_id: Seq<u8>,
) -> Option<([u8; 32], u8)>;

/// Search for a program derived address with
/// `solana_pubkey::Pubkey::try_find_program_address`.
///
/// Trusted: the result is the named result of the outside search on the seeds
/// and program id; the facts stated beside it are those its source checks
/// first: 16 or more seeds, or a seed longer than 32 bytes, give `None`.
#[verifier::external_body]
pub(crate) fn try_find_program_address(seeds: &Vec<Vec<u8>>, program_id: &[u8; 32]) -> (r: Option<(
    [u8; 32],
    u8,
)>)
    ensures
        r == spec_try_find_program_address(seeds@.map_values(|s: Vec<u8>| s@), program_id@),
        seeds@.len() >= 16 ==> r is None,
        (exists|i: int| 0 <= i < seeds@.len() && #[trigger] seeds@[i]@.len() > 32) ==> r is None,
{
    let slices: Vec<&[u8]> = seeds.iter().map(|s| s.as_slice()).collect();
    solana_pubkey::Pubkey::try_find_program_address(
        &slices,
        &solana_pubkey::Pubkey::new_from_array(*program_id),
    ).map(|(k, bump)| (k.to_bytes(), bump))
}

} // verus!
