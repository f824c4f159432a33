use key_overlay::event::{decode, DecodeError, InputEvent, EVENT_SIZE, EV_KEY};

fn record(typ: u16, code: u16, value: i32) -> Vec<u8> {
    let mut b = Vec::new();
    b.extend_from_slice(&7u64.to_le_bytes());
    b.extend_from_slice(&9u64.to_le_bytes());
    b.extend_from_slice(&typ.to_le_bytes());
    b.extend_from_slice(&code.to_le_bytes());
    b.extend_from_slice(&value.to_le_bytes());
    b
}

#[test]
fn new_event_is_zero() {
    let e = InputEvent::new();
    assert_eq!(e.pad, [0, 0]);
    assert_eq!(e.typ, 0);
    assert_eq!(e.code, 0);
    assert_eq!(e.value, 0);
}

#[test]
fn record_size_is_twenty_four() {
    assert_eq!(EVENT_SIZE, 24);
    assert_eq!(record(1, 30, 1).len(), EVENT_SIZE);
}

#[test]
fn every_short_input_is_rejected() {
    let full = record(EV_KEY, 30, 1);
    for n in 0..EVENT_SIZE {
        assert_eq!(decode(&full[..n]).unwrap_err(), DecodeError::ShortRecord);
    }
}

#[test]
fn decodes_fields_at_fixed_offsets() {
    let e = decode(&record(EV_KEY, 0x1e, 2)).unwrap();
    assert_eq!(e.pad, [7, 9]);
    assert_eq!(e.typ, 1);
    assert_eq!(e.code, 30);
    assert_eq!(e.value, 2);
}

#[test]
fn decodes_large_and_negative_values() {
    let mut b = vec![0xffu8; 16];
    b.extend_from_slice(&[0x34, 0x12, 0xcd, 0xab, 0xfe, 0xff, 0xff, 0xff]);
    let e = decode(&b).unwrap();
    assert_eq!(e.pad, [u64::MAX, u64::MAX]);
    assert_eq!(e.typ, 0x1234);
    assert_eq!(e.code, 0xabcd);
    assert_eq!(e.value, -2);
    let e = decode(&record(4, 0xffff, i32::MIN)).unwrap();
    assert_eq!(e.value, i32::MIN);
    assert_eq!(e.code, 0xffff);
}

#[test]
fn bytes_after_the_record_are_ignored() {
    let mut b = record(EV_KEY, 16, 1);
    b.extend_from_slice(&[5, 5, 5]);
    let e = decode(&b).unwrap();
    assert_eq!(e.code, 16);
    assert_eq!(e.value, 1);
}

#[test]
fn release_is_not_reportable() {
    assert!(!decode(&record(EV_KEY, 30, 0)).unwrap().is_reportable());
}

#[test]
fn zero_code_is_not_reportable() {
    assert!(!decode(&record(EV_KEY, 0, 1)).unwrap().is_reportable());
    assert!(!decode(&record(EV_KEY, 0, 2)).unwrap().is_reportable());
}

#[test]
fn other_categories_are_not_reportable() {
    assert!(!decode(&record(0, 30, 1)).unwrap().is_reportable());
    assert!(!decode(&record(4, 30, 1)).unwrap().is_reportable());
}

#[test]
fn press_and_repeat_are_reportable() {
    assert!(decode(&record(EV_KEY, 30, 1)).unwrap().is_reportable());
    assert!(decode(&record(EV_KEY, 16, 2)).unwrap().is_reportable());
}
