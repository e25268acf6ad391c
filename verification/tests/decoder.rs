//! Scenario tests for the dispatcher: program-identity filtering, underlength
//! payloads, legacy Buy normalization, event precedence, table modes, and the
//! shape of the result envelope.

use pump_swap_decoder::decoder::{
    normalize_legacy, AccountMeta, DecodedInstruction, PumpSwapDecoder, RawInstruction,
};
use pump_swap_decoder::instructions::PumpSwapInstruction;

const BUY_KEY: [u8; 8] = [102, 6, 61, 18, 1, 218, 235, 234];
const EVENT_MARKER: [u8; 8] = [228, 69, 165, 46, 81, 203, 154, 29];
const CREATE_POOL_EVENT_TAG: [u8; 8] = [177, 49, 12, 210, 160, 118, 167, 116];
const SELL_KEY: [u8; 8] = [51, 230, 133, 164, 1, 127, 131, 173];
const ADMIN_SET_COIN_CREATOR_KEY: [u8; 8] = [242, 40, 117, 145, 73, 96, 105, 104];
const DEPOSIT_EVENT_TAG: [u8; 8] = [120, 248, 61, 83, 31, 142, 107, 144];

fn target_program_id() -> Vec<u8> {
    vec![
        12, 20, 222, 252, 130, 94, 198, 118, 148, 37, 8, 24, 187, 101, 64, 101, 244, 41, 141, 49,
        86, 213, 113, 180, 212, 248, 9, 12, 24, 233, 168, 99,
    ]
}

fn accounts() -> Vec<AccountMeta> {
    vec![
        AccountMeta { pubkey: [1u8; 32], is_signer: true, is_writable: true },
        AccountMeta { pubkey: [2u8; 32], is_signer: false, is_writable: false },
    ]
}

fn raw(data: Vec<u8>) -> RawInstruction {
    RawInstruction { program_id: target_program_id(), accounts: accounts(), data }
}

fn buy_payload(amount: u64, max_quote: u64) -> Vec<u8> {
    let mut data = BUY_KEY.to_vec();
    data.extend_from_slice(&amount.to_le_bytes());
    data.extend_from_slice(&max_quote.to_le_bytes());
    data
}

#[test]
fn legacy_buy_payload_decodes_with_default_flag() {
    // 8-byte Buy discriminator plus two little-endian quantities: 24 bytes, the
    // legacy shape; the missing flag byte defaults to zero.
    let decoded = PumpSwapDecoder::full()
        .decode_instruction(&raw(buy_payload(1000, 2000)))
        .expect("recognized");
    assert_eq!(decoded.program_id, target_program_id());
    assert_eq!(decoded.accounts, accounts());
    match decoded.data {
        PumpSwapInstruction::Buy(b) => {
            assert_eq!(b.amount, 1000);
            assert_eq!(b.max_quote, 2000);
            assert_eq!(b.flag, 0);
        }
        other => panic!("wrong variant: {:?}", other),
    }
}

#[test]
fn create_pool_event_decodes_despite_shared_marker() {
    // The first 8 bytes are the marker every event shares; the full 16-byte key
    // still picks out exactly the CreatePool event.
    let mut data = EVENT_MARKER.to_vec();
    data.extend_from_slice(&CREATE_POOL_EVENT_TAG);
    data.extend_from_slice(&[42, 43, 44, 45]);
    let decoded = PumpSwapDecoder::full().decode_instruction(&raw(data)).expect("recognized");
    match decoded.data {
        PumpSwapInstruction::CreatePoolEvent(body) => assert_eq!(body, vec![42, 43, 44, 45]),
        other => panic!("wrong variant: {:?}", other),
    }
}

#[test]
fn seven_byte_payload_declined() {
    assert!(PumpSwapDecoder::full().decode_instruction(&raw(vec![1, 2, 3, 4, 5, 6, 7])).is_none());
}

#[test]
fn short_payloads_declined_for_any_program() {
    for len in 0..8usize {
        let data: Vec<u8> = (0..len as u8).collect();
        assert!(PumpSwapDecoder::full().decode_instruction(&raw(data.clone())).is_none());
        let foreign = RawInstruction {
            program_id: vec![9u8; 32],
            accounts: accounts(),
            data,
        };
        assert!(PumpSwapDecoder::full().decode_instruction(&foreign).is_none());
    }
}

#[test]
fn foreign_program_declined() {
    let mut id = target_program_id();
    id[0] ^= 0xff;
    let instruction = RawInstruction { program_id: id, accounts: accounts(), data: buy_payload(1, 2) };
    assert!(PumpSwapDecoder::full().decode_instruction(&instruction).is_none());
    let empty_id = RawInstruction { program_id: Vec::new(), accounts: accounts(), data: buy_payload(1, 2) };
    assert!(PumpSwapDecoder::full().decode_instruction(&empty_id).is_none());
}

#[test]
fn legacy_and_canonical_buy_agree() {
    // A canonical 25-byte Buy with a zero flag decodes identically to the
    // 24-byte legacy shape with the same first 24 bytes.
    let legacy = buy_payload(77, 88);
    let mut canonical = legacy.clone();
    canonical.push(0);
    let from_legacy = PumpSwapDecoder::full().decode_instruction(&raw(legacy.clone())).unwrap();
    let from_canonical = PumpSwapDecoder::full().decode_instruction(&raw(canonical)).unwrap();
    assert_eq!(from_legacy, from_canonical);

    // With a nonzero flag the results agree on everything but the flag.
    let mut flagged = legacy.clone();
    flagged.push(1);
    let from_flagged = PumpSwapDecoder::full().decode_instruction(&raw(flagged)).unwrap();
    match (from_legacy.data, from_flagged.data) {
        (PumpSwapInstruction::Buy(a), PumpSwapInstruction::Buy(b)) => {
            assert_eq!(a.amount, b.amount);
            assert_eq!(a.max_quote, b.max_quote);
            assert_eq!(a.flag, 0);
            assert_eq!(b.flag, 1);
        }
        other => panic!("wrong variants: {:?}", other),
    }
}

#[test]
fn decoding_is_repeatable() {
    let instruction = raw(buy_payload(5, 6));
    let decoder = PumpSwapDecoder::full();
    let first: Option<DecodedInstruction> = decoder.decode_instruction(&instruction);
    let second = decoder.decode_instruction(&instruction);
    assert!(first.is_some());
    assert_eq!(first, second);

    let unknown = raw(vec![0xAA; 20]);
    assert_eq!(decoder.decode_instruction(&unknown), decoder.decode_instruction(&unknown));
}

#[test]
fn malformed_buy_payload_declined() {
    // Recognized discriminator, but neither the canonical nor the legacy length.
    for extra in [0usize, 7, 15, 18, 20] {
        let mut data = BUY_KEY.to_vec();
        data.extend_from_slice(&vec![3u8; extra]);
        assert!(PumpSwapDecoder::full().decode_instruction(&raw(data)).is_none());
    }
}

#[test]
fn unknown_discriminator_declined() {
    let mut data = vec![0xde, 0xad, 0xbe, 0xef, 0, 0, 0, 0];
    data.extend_from_slice(&[1, 2, 3]);
    assert!(PumpSwapDecoder::full().decode_instruction(&raw(data)).is_none());
}

#[test]
fn marker_with_unknown_tag_declined() {
    let mut data = EVENT_MARKER.to_vec();
    data.extend_from_slice(&[0, 0, 0, 0, 0, 0, 0, 0]);
    data.extend_from_slice(&[5, 5]);
    assert!(PumpSwapDecoder::full().decode_instruction(&raw(data)).is_none());
}

#[test]
fn marker_too_short_for_event_key_declined() {
    // Long enough for a command key, too short for an event key, and the marker
    // itself is no command discriminator.
    let mut data = EVENT_MARKER.to_vec();
    data.extend_from_slice(&[1, 2, 3, 4]);
    assert!(PumpSwapDecoder::full().decode_instruction(&raw(data)).is_none());
}

#[test]
fn minimal_table_keeps_trading_path() {
    let decoder = PumpSwapDecoder::minimal();
    let buy = decoder.decode_instruction(&raw(buy_payload(10, 20))).expect("buy kept");
    assert!(matches!(buy.data, PumpSwapInstruction::Buy(_)));

    let mut sell = SELL_KEY.to_vec();
    sell.extend_from_slice(&[1, 2]);
    let sell = decoder.decode_instruction(&raw(sell)).expect("sell kept");
    assert!(matches!(sell.data, PumpSwapInstruction::Sell(_)));

    let mut sell_event = EVENT_MARKER.to_vec();
    sell_event.extend_from_slice(&[62, 47, 55, 10, 165, 3, 220, 42]);
    sell_event.extend_from_slice(&[6]);
    let sell_event = decoder.decode_instruction(&raw(sell_event)).expect("sell event kept");
    assert!(matches!(sell_event.data, PumpSwapInstruction::SellEvent(_)));
}

#[test]
fn minimal_table_drops_other_entries() {
    let decoder = PumpSwapDecoder::minimal();
    let mut admin = ADMIN_SET_COIN_CREATOR_KEY.to_vec();
    admin.extend_from_slice(&[1, 2, 3]);
    assert!(decoder.decode_instruction(&raw(admin.clone())).is_none());
    assert!(PumpSwapDecoder::full().decode_instruction(&raw(admin)).is_some());

    let mut deposit_event = EVENT_MARKER.to_vec();
    deposit_event.extend_from_slice(&DEPOSIT_EVENT_TAG);
    deposit_event.extend_from_slice(&[1, 2, 3]);
    assert!(decoder.decode_instruction(&raw(deposit_event.clone())).is_none());
    assert!(PumpSwapDecoder::full().decode_instruction(&raw(deposit_event)).is_some());
}

#[test]
fn normalizer_grows_only_the_legacy_shape() {
    let legacy = buy_payload(1, 2);
    let mut expected = legacy.clone();
    expected.push(0);
    assert_eq!(normalize_legacy(&legacy), expected);

    // Same discriminator, other lengths: untouched.
    let mut shorter = legacy.clone();
    shorter.pop();
    assert_eq!(normalize_legacy(&shorter), shorter);
    assert_eq!(normalize_legacy(&expected), expected);

    // Right length, other discriminator: untouched.
    let mut other = legacy.clone();
    other[0] = 0;
    assert_eq!(normalize_legacy(&other), other);

    let empty: Vec<u8> = Vec::new();
    assert_eq!(normalize_legacy(&empty), empty);
}

#[test]
fn envelope_copies_program_id_and_accounts() {
    let instruction = raw(buy_payload(3, 4));
    let decoded = PumpSwapDecoder::full().decode_instruction(&instruction).unwrap();
    assert_eq!(decoded.program_id, instruction.program_id);
    assert_eq!(decoded.accounts, instruction.accounts);
}
