//! Laws of the instruction data, the claim's instruction list, the claim's
//! decisions and the transaction framing.

use vstd::prelude::*;
use vstd::bytes::{lemma_auto_spec_u64_to_from_le_bytes, spec_u64_from_le_bytes, spec_u64_to_le_bytes};
use crate::claim_flow::{spec_after_blockhash, spec_claim_step, ClaimActionView, ClaimEventView, ClaimFlowView};
use crate::handler::{spec_claim_instructions, BamBoostCliHandler};
use crate::instruction::InstructionView;
use crate::lighthouse::{spec_assert_deploy_slot_data, spec_assert_deploy_slot_ix, ASSERT_UPGRADEABLE_LOADER_ACCOUNT_DISCRIMINATOR};
use crate::programs::{spec_advance_nonce_ix, spec_create_ata_idempotent_ix, JITOSOL_MINT, TOKEN_PROGRAM_ID};
use crate::text::{all_digits, digit_char, digit_value, digits_value, is_digit, spec_decimal, spec_parse_u64, unsigned_digits};
use crate::transaction::spec_unsigned_wire;

verus! {

/// Law: the deploy-slot assertion data is 13 bytes, starts with the
/// `AssertUpgradeableLoaderAccount` discriminator and the fixed variant bytes,
/// ends with `IntegerOperator::Equal`, and bytes 4 to 12 read back as the slot.
pub proof fn law_deploy_slot_data_reads_back(slot: u64)
    ensures
        spec_assert_deploy_slot_data(slot).len() == 13,
        spec_assert_deploy_slot_data(slot)[0] == ASSERT_UPGRADEABLE_LOADER_ACCOUNT_DISCRIMINATOR,
        spec_assert_deploy_slot_data(slot)[1] == 0,
        spec_assert_deploy_slot_data(slot)[2] == 3,
        spec_assert_deploy_slot_data(slot)[3] == 1,
        spec_assert_deploy_slot_data(slot)[12] == 0,
        spec_u64_from_le_bytes(spec_assert_deploy_slot_data(slot).subrange(4, 12)) == slot,
{
    lemma_auto_spec_u64_to_from_le_bytes();
    let d = spec_assert_deploy_slot_data(slot);
    assert(d.subrange(4, 12) =~= spec_u64_to_le_bytes(slot));
}

/// The authority that signs a nonce advance: the given one, else the nonce account.
pub open spec fn nonce_signer(h: BamBoostCliHandler, n: [u8; 32]) -> [u8; 32] {
    match h.nonce_authority {
        Some(a) => a,
        None => n,
    }
}

/// Law: a claim's instruction list holds the optional nonce advance first
/// (signed by the nonce authority, or by the nonce account itself when no
/// authority is given), then the optional deploy-slot guard, then the token
/// account creation, and ends with the claim instruction.
pub proof fn law_claim_instruction_order(
    h: BamBoostCliHandler,
    claimant: [u8; 32],
    claim_ix: InstructionView,
    ata: [u8; 32],
)
    ensures
        ({
            let ixs = spec_claim_instructions(h, claimant, claim_ix, ata);
            let k: int = if h.nonce is Some { 1 } else { 0 };
            let g: int = if h.assert_deploy_slot is Some { 1 } else { 0 };
            &&& ixs.len() == k + g + 2
            &&& h.nonce matches Some(n) ==> ixs[0] == spec_advance_nonce_ix(n, nonce_signer(h, n))
            &&& h.assert_deploy_slot matches Some(slot) ==> ixs[k] == spec_assert_deploy_slot_ix(slot)
            &&& ixs[k + g] == spec_create_ata_idempotent_ix(claimant, claimant, JITOSOL_MINT, TOKEN_PROGRAM_ID, ata)
            &&& ixs[k + g + 1] == claim_ix
        }),
{
}

/// Law: once the blockhash is known, a claim prints its unsigned transaction
/// exactly when it is in print mode (`--print-tx`, or `--address` without a
/// signer) and otherwise signs and sends it; in particular offline mode never
/// sends.
pub proof fn law_print_mode_never_sends(h: BamBoostCliHandler, f: ClaimFlowView, hash: [u8; 32])
    ensures
        (spec_after_blockhash(h, f, hash).1 is PrintTransaction) == h.spec_should_print_tx(),
        (spec_after_blockhash(h, f, hash).1 is SignAndSend) == !h.spec_should_print_tx(),
        h.spec_is_offline() ==> spec_after_blockhash(h, f, hash).1 is PrintTransaction,
{
}

/// Law: the claim status is fetched after a sent transaction and never after a
/// printed one; an existing claim status ends the claim with an error.
pub proof fn law_claim_status_checked_only_after_send(h: BamBoostCliHandler, f: ClaimFlowView)
    ensures
        spec_claim_step(h, f, ClaimEventView::Sent) == Ok::<(ClaimFlowView, ClaimActionView), crate::handler::HandlerError>(
            (
                ClaimFlowView { stage: crate::claim_flow::ClaimStage::AwaitClaimStatus, ..f },
                ClaimActionView::FetchClaimStatus { address: f.claim_status },
            ),
        ),
        spec_claim_step(h, f, ClaimEventView::Printed)->Ok_0.1 is Finish,
        spec_claim_step(h, f, ClaimEventView::ClaimStatusLookedUp { exists: true })
            == Err::<(ClaimFlowView, ClaimActionView), crate::handler::HandlerError>(
            crate::handler::HandlerError::AlreadyClaimed,
        ),
{
}

/// Law: an unsigned transaction on the wire is the signature count, then that
/// many 64-byte zeroed signatures, then the message unchanged.
pub proof fn law_unsigned_wire_layout(num_sigs: u8, message: Seq<u8>)
    ensures
        spec_unsigned_wire(num_sigs, message).len() == 1 + 64 * num_sigs + message.len(),
        spec_unsigned_wire(num_sigs, message)[0] == num_sigs,
        forall|i: int| 1 <= i <= 64 * num_sigs ==> #[trigger] spec_unsigned_wire(num_sigs, message)[i] == 0,
        spec_unsigned_wire(num_sigs, message).subrange(1 + 64 * num_sigs, spec_unsigned_wire(num_sigs, message).len() as int)
            == message,
{
    let w = spec_unsigned_wire(num_sigs, message);
    assert(w.subrange(1 + 64 * num_sigs, w.len() as int) =~= message);
}

proof fn lemma_digit_char(d: nat)
    requires
        d < 10,
    ensures
        is_digit(digit_char(d)),
        digit_value(digit_char(d)) == d,
{
}

proof fn lemma_decimal_digits(n: nat)
    ensures
        spec_decimal(n).len() > 0,
        all_digits(spec_decimal(n)),
        digits_value(spec_decimal(n)) == n,
    decreases n,
{
    if n < 10 {
        lemma_digit_char(n);
        let s = spec_decimal(n);
        assert(s.drop_last() =~= Seq::<char>::empty());
        assert(digits_value(s.drop_last()) == 0);
        assert(digits_value(s) == digits_value(s.drop_last()) * 10 + digit_value(s.last()));
    } else {
        lemma_decimal_digits(n / 10);
        lemma_digit_char(n % 10);
        let s = spec_decimal(n);
        assert(s.drop_last() =~= spec_decimal(n / 10));
        assert(s.last() == digit_char(n % 10));
        assert(digits_value(s) == digits_value(s.drop_last()) * 10 + digit_value(s.last()));
        assert((n / 10) * 10 + n % 10 == n);
        assert forall|i: int| 0 <= i < s.len() implies is_digit(#[trigger] s[i]) by {
            if i < s.len() - 1 {
                assert(s[i] == spec_decimal(n / 10)[i]);
            }
        }
    }
}

/// Law: the decimal text of an epoch (as it stands in the merkle tree URL)
/// parses back to the epoch under the command line's number syntax.
pub proof fn law_decimal_parses_back(n: u64)
    ensures
        spec_parse_u64(spec_decimal(n as nat)) == Some(n),
{
    lemma_decimal_digits(n as nat);
    let s = spec_decimal(n as nat);
    assert(is_digit(s[0]));
    assert(unsigned_digits(s) == s);
}

} // verus!
