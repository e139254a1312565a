use base64::Engine;
use solami_sniffer::events::{decode_event, decode_events_from_logs, PumpFunEvent, CREATE_DISCRIMINATOR, TRADE_DISCRIMINATOR};
use solami_sniffer::metadata::parse_metadata_fields;

fn put_str(d: &mut Vec<u8>, s: &str) {
    d.extend_from_slice(&(s.len() as u32).to_le_bytes());
    d.extend_from_slice(s.as_bytes());
}

fn bytes32(b: u8) -> [u8; 32] {
    [b; 32]
}

fn create_event_bytes() -> Vec<u8> {
    let mut d = CREATE_DISCRIMINATOR.to_vec();
    put_str(&mut d, "Doge Moon");
    put_str(&mut d, "DMOON");
    put_str(&mut d, "https://x.y/z.json");
    d.extend_from_slice(&bytes32(1));
    d.extend_from_slice(&bytes32(2));
    d.extend_from_slice(&bytes32(3));
    d.extend_from_slice(&bytes32(4));
    d.extend_from_slice(&(-5i64).to_le_bytes());
    d.extend_from_slice(&11u64.to_le_bytes());
    d.extend_from_slice(&12u64.to_le_bytes());
    d.extend_from_slice(&13u64.to_le_bytes());
    d.extend_from_slice(&1_000_000_000_000_000u64.to_le_bytes());
    d.extend_from_slice(&bytes32(5));
    d.push(1);
    d.push(0);
    d
}

fn trade_event_bytes(is_buy: bool) -> Vec<u8> {
    let mut d = TRADE_DISCRIMINATOR.to_vec();
    d.extend_from_slice(&bytes32(9));
    d.extend_from_slice(&250_000_000u64.to_le_bytes());
    d.extend_from_slice(&777u64.to_le_bytes());
    d.push(is_buy as u8);
    d.extend_from_slice(&bytes32(8));
    d.extend_from_slice(&1_700_000_000i64.to_le_bytes());
    for v in [21u64, 22, 23, 24] {
        d.extend_from_slice(&v.to_le_bytes());
    }
    d.extend_from_slice(&bytes32(7));
    d.extend_from_slice(&95u64.to_le_bytes());
    d.extend_from_slice(&31u64.to_le_bytes());
    d.extend_from_slice(&bytes32(6));
    d.extend_from_slice(&30u64.to_le_bytes());
    d.extend_from_slice(&32u64.to_le_bytes());
    d.push(1);
    for v in [41u64, 42, 43] {
        d.extend_from_slice(&v.to_le_bytes());
    }
    d.extend_from_slice(&1_700_000_001i64.to_le_bytes());
    put_str(&mut d, "buy");
    d.push(0);
    d.extend_from_slice(&51u64.to_le_bytes());
    d.extend_from_slice(&52u64.to_le_bytes());
    d
}

#[test]
fn create_event_decodes_every_field() {
    match decode_event(&create_event_bytes()) {
        Some(PumpFunEvent::Create(c)) => {
            assert_eq!(c.name, "Doge Moon");
            assert_eq!(c.symbol, "DMOON");
            assert_eq!(c.uri, "https://x.y/z.json");
            assert_eq!(c.mint.bytes, bytes32(1));
            assert_eq!(c.bonding_curve.bytes, bytes32(2));
            assert_eq!(c.user.bytes, bytes32(3));
            assert_eq!(c.creator.bytes, bytes32(4));
            assert_eq!(c.timestamp, -5);
            assert_eq!(c.virtual_token_reserves, 11);
            assert_eq!(c.virtual_sol_reserves, 12);
            assert_eq!(c.real_token_reserves, 13);
            assert_eq!(c.token_total_supply, 1_000_000_000_000_000);
            assert_eq!(c.token_program.bytes, bytes32(5));
            assert!(c.is_mayhem_mode);
            assert!(!c.is_cashback_enabled);
        }
        other => panic!("expected a create event, got {:?}", other),
    }
}

#[test]
fn trade_event_decodes_every_field() {
    match decode_event(&trade_event_bytes(false)) {
        Some(PumpFunEvent::Trade(t)) => {
            assert_eq!(t.mint.bytes, bytes32(9));
            assert_eq!(t.sol_amount, 250_000_000);
            assert_eq!(t.token_amount, 777);
            assert!(!t.is_buy);
            assert_eq!(t.user.bytes, bytes32(8));
            assert_eq!(t.timestamp, 1_700_000_000);
            assert_eq!(t.virtual_sol_reserves, 21);
            assert_eq!(t.virtual_token_reserves, 22);
            assert_eq!(t.real_sol_reserves, 23);
            assert_eq!(t.real_token_reserves, 24);
            assert_eq!(t.fee_recipient.bytes, bytes32(7));
            assert_eq!(t.fee_basis_points, 95);
            assert_eq!(t.fee, 31);
            assert_eq!(t.creator.bytes, bytes32(6));
            assert_eq!(t.creator_fee_basis_points, 30);
            assert_eq!(t.creator_fee, 32);
            assert!(t.track_volume);
            assert_eq!(t.total_unclaimed_tokens, 41);
            assert_eq!(t.total_claimed_tokens, 42);
            assert_eq!(t.current_sol_volume, 43);
            assert_eq!(t.last_update_timestamp, 1_700_000_001);
            assert_eq!(t.ix_name, "buy");
            assert!(!t.mayhem_mode);
            assert_eq!(t.cashback_fee_basis_points, 51);
            assert_eq!(t.cashback, 52);
        }
        other => panic!("expected a trade event, got {:?}", other),
    }
}

#[test]
fn malformed_events_are_skipped() {
    assert!(decode_event(&[1, 2, 3]).is_none());
    let mut unknown = create_event_bytes();
    unknown[0] ^= 0xff;
    assert!(decode_event(&unknown).is_none());
    let mut trailing = create_event_bytes();
    trailing.push(0);
    assert!(decode_event(&trailing).is_none());
    let short = create_event_bytes();
    assert!(decode_event(&short[..short.len() - 1]).is_none());
    let mut bad_bool = trade_event_bytes(true);
    let at = 8 + 32 + 8 + 8;
    bad_bool[at] = 2;
    assert!(decode_event(&bad_bool).is_none());
    let mut bad_utf8 = CREATE_DISCRIMINATOR.to_vec();
    bad_utf8.extend_from_slice(&2u32.to_le_bytes());
    bad_utf8.extend_from_slice(&[0xff, 0xfe]);
    assert!(decode_event(&bad_utf8).is_none());
}

#[test]
fn events_come_from_program_data_lines_in_order() {
    let b64 = base64::engine::general_purpose::STANDARD;
    let logs = vec![
        "Program 6EF8rrecthR5Dkzon8Nwu78hRvfCKubJ14M5uBEwF6P invoke [1]".to_string(),
        format!("Program data: {}", b64.encode(trade_event_bytes(true))),
        "Program log: Instruction: Buy".to_string(),
        format!("Program data: {}", b64.encode(create_event_bytes())),
        "Program data: !!!not base64!!!".to_string(),
        format!("Program data: {}", b64.encode([1u8, 2, 3, 4, 5, 6, 7, 8, 9])),
        format!("Program data:{}", b64.encode(create_event_bytes())),
    ];
    let events = decode_events_from_logs(&logs);
    assert_eq!(events.len(), 2);
    assert!(matches!(&events[0], PumpFunEvent::Trade(t) if t.is_buy));
    assert!(matches!(&events[1], PumpFunEvent::Create(c) if c.symbol == "DMOON"));
    assert!(decode_events_from_logs(&[]).is_empty());
}

fn metadata_bytes(name: &[u8], symbol: &[u8]) -> Vec<u8> {
    let mut d = vec![4u8];
    d.extend_from_slice(&[1u8; 32]);
    d.extend_from_slice(&[2u8; 32]);
    d.extend_from_slice(&(name.len() as u32).to_le_bytes());
    d.extend_from_slice(name);
    d.extend_from_slice(&(symbol.len() as u32).to_le_bytes());
    d.extend_from_slice(symbol);
    d.extend_from_slice(&[0u8; 8]);
    d
}

#[test]
fn metadata_names_lose_their_padding() {
    let d = metadata_bytes(b"Doge Moon\0\0\0\0", b"DMOON\0\0\0");
    let m = parse_metadata_fields(&d).unwrap();
    assert_eq!(m.name, "Doge Moon");
    assert_eq!(m.symbol, "DMOON");
}

#[test]
fn metadata_with_invalid_utf8_is_read_lossily() {
    let d = metadata_bytes(b"ab\xffcd", b"X");
    let m = parse_metadata_fields(&d).unwrap();
    assert_eq!(m.name, "ab\u{fffd}cd");
    assert_eq!(m.symbol, "X");
}

#[test]
fn metadata_lengths_past_the_end_are_refused() {
    assert!(parse_metadata_fields(&[0u8; 72]).is_none());
    let mut d = metadata_bytes(b"Doge", b"D");
    d[65..69].copy_from_slice(&1000u32.to_le_bytes());
    assert!(parse_metadata_fields(&d).is_none());
    let mut e = vec![0u8; 65];
    e.extend_from_slice(&4u32.to_le_bytes());
    e.extend_from_slice(b"Doge");
    e.extend_from_slice(&[5, 0]);
    assert!(parse_metadata_fields(&e).is_none());
    let mut f = vec![0u8; 65];
    f.extend_from_slice(&0u32.to_le_bytes());
    f.extend_from_slice(&9u32.to_le_bytes());
    f.extend_from_slice(b"abc");
    assert!(parse_metadata_fields(&f).is_none());
}
