use txlog::fees::{priority_fee, transaction_fee};
use txlog::message::{CompiledInstruction, Message, MessageBody, MessageHeader, Transaction};
use txlog::record::{analyze_transaction, format_record, u64_to_dec, TxError, TxRecord};
use txlog::scan::scan_compute_budget;

fn header(num_required_signatures: u8) -> MessageHeader {
    MessageHeader {
        num_required_signatures,
        num_readonly_signed: 0,
        num_readonly_unsigned: 0,
    }
}

fn budget_key() -> Vec<u8> {
    vec![7u8; 32]
}

fn other_key() -> Vec<u8> {
    vec![9u8; 32]
}

fn ix(program_id_index: u8, data: Vec<u8>) -> CompiledInstruction {
    CompiledInstruction {
        program_id_index,
        accounts: vec![],
        data,
    }
}

fn set_limit_ix(program_id_index: u8, limit: u32) -> CompiledInstruction {
    let b = limit.to_le_bytes();
    ix(program_id_index, vec![2, b[0], b[1], b[2], b[3]])
}

fn set_price_ix(program_id_index: u8, price: u64) -> CompiledInstruction {
    let b = price.to_le_bytes();
    ix(
        program_id_index,
        vec![3, b[0], b[1], b[2], b[3], b[4], b[5], b[6], b[7]],
    )
}

fn legacy_message(
    num_required_signatures: u8,
    account_keys: Vec<Vec<u8>>,
    instructions: Vec<CompiledInstruction>,
) -> Message {
    Message::Legacy(MessageBody {
        header: header(num_required_signatures),
        account_keys,
        instructions,
    })
}

fn one_sig_tx(message: Message) -> Transaction {
    Transaction {
        signatures: vec![vec![0u8; 64]],
        message,
    }
}

fn analyzed(message: Message) -> TxRecord {
    analyze_transaction(&one_sig_tx(message), &budget_key()).unwrap()
}

fn ratio_of(rec: &TxRecord) -> f64 {
    rec.transaction_fee as f64 / (1f64 + rec.compute_unit_limit as f64)
}

#[test]
fn scenario_a_no_budget_program() {
    let msg = legacy_message(1, vec![other_key()], vec![set_limit_ix(0, 1)]);
    let rec = analyzed(msg);
    assert_eq!(rec.compute_unit_limit, 200_000);
    assert_eq!(rec.compute_unit_price, 0);
    assert_eq!(rec.priority_fee, 0);
    assert_eq!(rec.transaction_fee, 5000);
    let ratio = ratio_of(&rec);
    assert!((ratio - 0.024999875).abs() < 1e-12);
    assert!((ratio - 5000f64 / 200_001f64).abs() < 1e-15);
}

#[test]
fn limit_decodes_little_endian() {
    let msg = legacy_message(
        1,
        vec![other_key(), budget_key()],
        vec![ix(1, vec![2, 0xC0, 0x5C, 0x15, 0x00])],
    );
    let (limit, price) = scan_compute_budget(&msg, &budget_key());
    assert_eq!(limit, 1_400_000);
    assert_eq!(price, 0);
}

#[test]
fn price_decodes_little_endian() {
    let msg = legacy_message(
        1,
        vec![budget_key()],
        vec![ix(0, vec![3, 0xE8, 0x03, 0x00, 0x00, 0x00, 0x00, 0x00, 0x00])],
    );
    let (limit, price) = scan_compute_budget(&msg, &budget_key());
    assert_eq!(limit, 200_000);
    assert_eq!(price, 1000);
}

#[test]
fn last_limit_instruction_wins() {
    let msg = legacy_message(
        1,
        vec![budget_key()],
        vec![set_limit_ix(0, 50_000), set_limit_ix(0, 75_000)],
    );
    let (limit, _) = scan_compute_budget(&msg, &budget_key());
    assert_eq!(limit, 75_000);
}

#[test]
fn last_price_instruction_wins() {
    let msg = legacy_message(
        1,
        vec![budget_key()],
        vec![set_price_ix(0, 11), set_price_ix(0, 22)],
    );
    let (_, price) = scan_compute_budget(&msg, &budget_key());
    assert_eq!(price, 22);
}

#[test]
fn scenario_b_limit_and_price() {
    let msg = legacy_message(
        1,
        vec![other_key(), budget_key()],
        vec![
            ix(1, vec![2, 0xC0, 0x5C, 0x15, 0x00]),
            ix(1, vec![3, 0xE8, 0x03, 0x00, 0x00, 0x00, 0x00, 0x00, 0x00]),
        ],
    );
    let rec = analyzed(msg);
    assert_eq!(rec.compute_unit_limit, 1_400_000);
    assert_eq!(rec.compute_unit_price, 1000);
    assert_eq!(rec.priority_fee, 1400);
    assert_eq!(rec.transaction_fee, 6400);
    let ratio = ratio_of(&rec);
    assert!((ratio - 6400f64 / 1_400_001f64).abs() < 1e-15);
    assert!((ratio - 0.0045714).abs() < 1e-7);
}

#[test]
fn scenario_c_short_data_ignored() {
    let msg = legacy_message(1, vec![budget_key()], vec![ix(0, vec![2, 0x10, 0x27])]);
    let (limit, price) = scan_compute_budget(&msg, &budget_key());
    assert_eq!(limit, 200_000);
    assert_eq!(price, 0);

    let msg = legacy_message(
        1,
        vec![budget_key()],
        vec![set_limit_ix(0, 42), ix(0, vec![2, 0x10, 0x27])],
    );
    let (limit, _) = scan_compute_budget(&msg, &budget_key());
    assert_eq!(limit, 42);
}

#[test]
fn unknown_opcode_and_empty_data_ignored() {
    let msg = legacy_message(
        1,
        vec![budget_key()],
        vec![
            ix(0, vec![]),
            ix(0, vec![4, 1, 2, 3, 4, 5, 6, 7, 8]),
            ix(0, vec![0, 1, 2, 3, 4]),
        ],
    );
    let (limit, price) = scan_compute_budget(&msg, &budget_key());
    assert_eq!(limit, 200_000);
    assert_eq!(price, 0);
}

#[test]
fn other_programs_instructions_ignored() {
    let msg = legacy_message(
        1,
        vec![other_key(), budget_key()],
        vec![set_limit_ix(0, 99), set_price_ix(0, 99)],
    );
    let (limit, price) = scan_compute_budget(&msg, &budget_key());
    assert_eq!(limit, 200_000);
    assert_eq!(price, 0);
}

#[test]
fn versioned_v0_same_behavior() {
    let msg = Message::V0(MessageBody {
        header: header(1),
        account_keys: vec![budget_key()],
        instructions: vec![set_limit_ix(0, 1_400_000), set_price_ix(0, 1000)],
    });
    let rec = analyzed(msg);
    assert_eq!(rec.compute_unit_limit, 1_400_000);
    assert_eq!(rec.priority_fee, 1400);
    assert_eq!(rec.transaction_fee, 6400);
}

#[test]
fn empty_signature_list_rejected() {
    let tx = Transaction {
        signatures: vec![],
        message: legacy_message(1, vec![other_key()], vec![]),
    };
    let r = analyze_transaction(&tx, &budget_key());
    assert_eq!(r.unwrap_err(), TxError::InvalidTransaction);
}

#[test]
fn priority_fee_formula_and_saturation() {
    assert_eq!(priority_fee(1_400_000, 1000), 1400);
    assert_eq!(priority_fee(200_000, 0), 0);
    assert_eq!(priority_fee(0, u64::MAX), 0);
    assert_eq!(priority_fee(999, 1), 0);
    assert_eq!(priority_fee(1_000_000, 1), 1);
    assert_eq!(priority_fee(u32::MAX, u64::MAX), u64::MAX);
}

#[test]
fn transaction_fee_formula_and_saturation() {
    assert_eq!(transaction_fee(0, 1), 5000);
    assert_eq!(transaction_fee(1400, 1), 6400);
    assert_eq!(transaction_fee(0, 3), 15_000);
    assert_eq!(transaction_fee(u64::MAX, 1), u64::MAX);
    assert_eq!(transaction_fee(u64::MAX - 1000, 1), u64::MAX);
}

#[test]
fn signature_rendered_base58() {
    let rec = analyzed(legacy_message(1, vec![other_key()], vec![]));
    assert_eq!(rec.signature, "1".repeat(64));

    let mut sig_bytes = [0u8; 64];
    for (i, b) in sig_bytes.iter_mut().enumerate() {
        *b = i as u8;
    }
    let tx = Transaction {
        signatures: vec![sig_bytes.to_vec()],
        message: legacy_message(1, vec![other_key()], vec![]),
    };
    let rec = analyze_transaction(&tx, &budget_key()).unwrap();
    let expected = solana_sdk::signature::Signature::from(sig_bytes).to_string();
    assert_eq!(rec.signature, expected);
}

#[test]
fn decimal_rendering() {
    assert_eq!(u64_to_dec(0), "0");
    assert_eq!(u64_to_dec(7), "7");
    assert_eq!(u64_to_dec(10), "10");
    assert_eq!(u64_to_dec(1_400_000), "1400000");
    assert_eq!(u64_to_dec(u64::MAX), "18446744073709551615");
}

#[test]
fn telemetry_line_format() {
    let rec = analyzed(legacy_message(1, vec![other_key()], vec![]));
    let line = format_record(&rec, "0.024999875", "127.0.0.1");
    let expected = format!("txlog,{},200000,5000,0.024999875,127.0.0.1", "1".repeat(64));
    assert_eq!(line, expected);
}

#[test]
fn message_accessors() {
    let msg = legacy_message(2, vec![budget_key(), other_key()], vec![set_limit_ix(0, 5)]);
    assert_eq!(msg.num_required_signatures(), 2);
    assert_eq!(msg.account_keys().len(), 2);
    assert_eq!(msg.instructions().len(), 1);
    assert!(msg.is_signer(0));
    assert!(msg.is_signer(1));
    assert!(!msg.is_signer(2));
}
