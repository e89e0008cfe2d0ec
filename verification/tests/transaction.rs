use jito_bam_boost_cli::instruction::{AccountMeta, Instruction};
use jito_bam_boost_cli::text::{append_decimal, parse_u64};
use jito_bam_boost_cli::transaction::{unsigned_transaction_text, unsigned_wire};
use solana_pubkey::Pubkey;

#[test]
fn unsigned_wire_layout() {
    let wire = unsigned_wire(2, &vec![9, 8, 7]);
    assert_eq!(wire.len(), 1 + 128 + 3);
    assert_eq!(wire[0], 2);
    assert!(wire[1..129].iter().all(|b| *b == 0));
    assert_eq!(&wire[129..], &[9, 8, 7]);
    assert_eq!(unsigned_wire(0, &vec![]), vec![0]);
}

fn sample_ixs() -> Vec<Instruction> {
    vec![Instruction {
        program_id: [9u8; 32],
        accounts: vec![
            AccountMeta { pubkey: [1u8; 32], is_signer: true, is_writable: true },
            AccountMeta { pubkey: [2u8; 32], is_signer: false, is_writable: false },
        ],
        data: vec![1, 2, 3],
    }]
}

fn solana_message() -> solana_transaction::Message {
    let ix = solana_transaction::Instruction {
        program_id: Pubkey::new_from_array([9u8; 32]),
        accounts: vec![
            solana_transaction::AccountMeta::new(Pubkey::new_from_array([1u8; 32]), true),
            solana_transaction::AccountMeta::new_readonly(Pubkey::new_from_array([2u8; 32]), false),
        ],
        data: vec![1, 2, 3],
    };
    let mut m = solana_transaction::Message::new(&[ix], Some(&Pubkey::new_from_array([1u8; 32])));
    m.recent_blockhash = solana_hash::Hash::new_from_array([5u8; 32]);
    m
}

#[test]
fn unsigned_transaction_text_is_base58_of_the_framed_message() {
    let text = unsigned_transaction_text(&sample_ixs(), &[1u8; 32], &[5u8; 32]);
    let m = solana_message();
    let msg = m.serialize();
    let mut wire = vec![m.header.num_required_signatures];
    wire.extend_from_slice(&[0u8; 64]);
    wire.extend_from_slice(&msg);
    assert_eq!(text, bs58::encode(&wire).into_string());
    assert_eq!(bs58::decode(&text).into_vec().unwrap(), unsigned_wire(1, &msg));
}

#[test]
fn decimal_text_and_parse_agree() {
    for n in [0u64, 7, 10, 99, 100, 12345, u64::MAX] {
        let mut s = String::from("x");
        append_decimal(&mut s, n);
        assert_eq!(s, format!("x{}", n));
        assert_eq!(parse_u64(&s[1..]), Some(n));
    }
    assert_eq!(parse_u64("+5"), Some(5));
    assert_eq!(parse_u64("+"), None);
    assert_eq!(parse_u64(""), None);
    assert_eq!(parse_u64("-1"), None);
    assert_eq!(parse_u64("1 "), None);
    assert_eq!(parse_u64("18446744073709551616"), None);
    assert_eq!(parse_u64("00042"), Some(42));
}
