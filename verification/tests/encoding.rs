use beaconctl::encoder::{
    encode_gen1, encode_gen2, GEN1_CHARACTERISTIC, GEN2_CHARACTERISTIC,
};
use beaconctl::state::{LogicalState, RunError};

#[test]
fn gen1_on_full_frame() {
    let p = encode_gen1("HTC BS12345678", LogicalState::On).unwrap();
    assert_eq!(
        p.bytes,
        vec![
            0x12, 0x00, 0x00, 0x00, 0x78, 0x56, 0x34, 0x12, 0x00, 0x00, 0x00, 0x00, 0x00, 0x00,
            0x00, 0x00, 0x00, 0x00, 0x00, 0x00,
        ]
    );
    assert_eq!(p.target, GEN1_CHARACTERISTIC);
}

#[test]
fn gen1_off_header_and_reversed_id() {
    let p = encode_gen1("HTC BS12345678", LogicalState::Off).unwrap();
    assert_eq!(p.bytes.len(), 20);
    assert_eq!(&p.bytes[0..4], &[0x12, 0x02, 0x00, 0x01]);
    // The hex pairs of the tail "12345678", read in reverse pair order.
    assert_eq!(&p.bytes[4..8], &[0x78, 0x56, 0x34, 0x12]);
    assert!(p.bytes[8..].iter().all(|b| *b == 0x00));
}

#[test]
fn gen1_off_mixed_case_and_letters() {
    let p = encode_gen1("HTC BSaBcDeF09", LogicalState::Off).unwrap();
    assert_eq!(&p.bytes[4..8], &[0x09, 0xef, 0xcd, 0xab]);
}

#[test]
fn gen1_standby_unsupported_for_every_valid_suffix() {
    for suffix in ["00000000", "12345678", "ffffffff", "ABCDEF01", "deadBEEF"] {
        let name = format!("HTC BS{suffix}");
        let r = encode_gen1(&name, LogicalState::Standby);
        assert_eq!(r.unwrap_err(), RunError::UnsupportedStateError);
    }
}

#[test]
fn gen1_bad_hex_is_format_error() {
    let r = encode_gen1("HTC BSZZZZZZZZ", LogicalState::On);
    assert_eq!(r.unwrap_err(), RunError::FormatError);
}

#[test]
fn gen1_partial_hex_is_format_error() {
    // Only the last pair is malformed.
    let r = encode_gen1("HTC BS123456G8", LogicalState::Off);
    assert_eq!(r.unwrap_err(), RunError::FormatError);
}

#[test]
fn gen1_short_name_is_format_error() {
    let r = encode_gen1("HTC BS1", LogicalState::On);
    assert_eq!(r.unwrap_err(), RunError::FormatError);
}

#[test]
fn gen1_format_error_beats_unsupported_state() {
    // A malformed name fails the same way whatever the state asks for.
    let r = encode_gen1("HTC BSZZZZZZZZ", LogicalState::Standby);
    assert_eq!(r.unwrap_err(), RunError::FormatError);
}

#[test]
fn gen2_total_mapping() {
    assert_eq!(encode_gen2(LogicalState::Off).bytes, vec![0x00]);
    assert_eq!(encode_gen2(LogicalState::On).bytes, vec![0x01]);
    assert_eq!(encode_gen2(LogicalState::Standby).bytes, vec![0x02]);
    assert_eq!(encode_gen2(LogicalState::On).target, GEN2_CHARACTERISTIC);
}

#[test]
fn gen2_injective_on_the_three_states() {
    let off = encode_gen2(LogicalState::Off).bytes;
    let on = encode_gen2(LogicalState::On).bytes;
    let standby = encode_gen2(LogicalState::Standby).bytes;
    assert_ne!(off, on);
    assert_ne!(on, standby);
    assert_ne!(off, standby);
}

#[test]
fn characteristic_uuids_match_the_wire_constants() {
    let gen1 = uuid::Uuid::from_u128(GEN1_CHARACTERISTIC);
    let gen2 = uuid::Uuid::from_u128(GEN2_CHARACTERISTIC);
    assert_eq!(gen1.to_string(), "0000cb01-0000-1000-8000-00805f9b34fb");
    assert_eq!(gen2.to_string(), "00001525-1212-efde-1523-785feabcd124");
}
