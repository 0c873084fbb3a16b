use candy_guard::codec::{decode, encode};
use candy_guard::errors::DecodeError;
use candy_guard::guard_set::GuardSet;
use candy_guard::lamports::Lamports;
use candy_guard::resource::Pubkey;
use candy_guard::sol_payment::SolPayment;
use candy_guard::start_date::StartDate;

fn key(b: u8) -> Pubkey {
    Pubkey::new(vec![b; 32])
}

#[test]
fn round_trip_full_set() {
    let set = GuardSet::new(
        Some(Lamports { amount: 5_000, destination: key(7) }),
        Some(SolPayment { lamports: 10_000, destination: key(9) }),
        Some(StartDate { date: -123_456_789 }),
    );
    let bytes = encode(&set);
    assert_eq!(bytes.len(), 8 + 40 + 40 + 8);
    let back = decode(&bytes).unwrap();
    assert_eq!(back.active_mask, set.active_mask);
    let l = back.lamports.as_ref().unwrap();
    assert_eq!(l.amount, 5_000);
    assert_eq!(l.destination.bytes, vec![7u8; 32]);
    let s = back.sol_payment.as_ref().unwrap();
    assert_eq!(s.lamports, 10_000);
    assert_eq!(s.destination.bytes, vec![9u8; 32]);
    let d = back.start_date.as_ref().unwrap();
    assert_eq!(d.date, -123_456_789);
}

#[test]
fn round_trip_empty_set() {
    let set = GuardSet::new(None, None, None);
    let bytes = encode(&set);
    assert_eq!(bytes, vec![0u8; 8]);
    let back = decode(&bytes).unwrap();
    assert_eq!(back.active_mask, 0);
    assert!(back.lamports.is_none());
    assert!(back.sol_payment.is_none());
    assert!(back.start_date.is_none());
}

#[test]
fn round_trip_start_date_only() {
    let set = GuardSet::new(None, None, Some(StartDate { date: 1_700_000_000 }));
    let bytes = encode(&set);
    assert_eq!(bytes.len(), 16);
    // mask 0b1000 little-endian, then the date little-endian
    assert_eq!(&bytes[0..8], &[8, 0, 0, 0, 0, 0, 0, 0]);
    assert_eq!(&bytes[8..16], &1_700_000_000i64.to_le_bytes());
    let back = decode(&bytes).unwrap();
    assert_eq!(back.start_date.as_ref().unwrap().date, 1_700_000_000);
    assert!(back.lamports.is_none());
}

#[test]
fn encode_orders_regions_by_ascending_bit() {
    let set = GuardSet::new(
        Some(Lamports { amount: 1, destination: key(1) }),
        Some(SolPayment { lamports: 2, destination: key(2) }),
        None,
    );
    let bytes = encode(&set);
    assert_eq!(bytes.len(), 88);
    // mask 0b110, then the flat payment region, then the fee-split region
    assert_eq!(&bytes[0..8], &[6, 0, 0, 0, 0, 0, 0, 0]);
    assert_eq!(&bytes[8..16], &1u64.to_le_bytes());
    assert_eq!(&bytes[16..48], &[1u8; 32][..]);
    assert_eq!(&bytes[48..56], &2u64.to_le_bytes());
    assert_eq!(&bytes[56..88], &[2u8; 32][..]);
}

#[test]
fn decode_rejects_unknown_bits() {
    // bit 0 is outside the registry
    let mut bytes = vec![0u8; 8];
    bytes[0] = 0b1;
    assert_eq!(decode(&bytes), Err(DecodeError::UnknownGuardBits));
    // a high bit is outside the registry too
    let mut bytes = vec![0u8; 8];
    bytes[7] = 0x80;
    assert_eq!(decode(&bytes), Err(DecodeError::UnknownGuardBits));
}

#[test]
fn decode_rejects_truncated_image() {
    let set = GuardSet::new(Some(Lamports { amount: 5, destination: key(3) }), None, None);
    let mut bytes = encode(&set);
    bytes.pop();
    assert_eq!(decode(&bytes), Err(DecodeError::LengthMismatch));
}

#[test]
fn decode_rejects_trailing_bytes() {
    let set = GuardSet::new(None, None, Some(StartDate { date: 5 }));
    let mut bytes = encode(&set);
    bytes.push(0);
    assert_eq!(decode(&bytes), Err(DecodeError::LengthMismatch));
}

#[test]
fn decode_rejects_short_header() {
    assert_eq!(decode(&[1, 2, 3]), Err(DecodeError::LengthMismatch));
    assert_eq!(decode(&[]), Err(DecodeError::LengthMismatch));
}
