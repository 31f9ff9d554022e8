use ojd_server::event::{RawEvent, RECORD_SIZE};

#[test]
fn record_size_is_eight_bytes() {
    assert_eq!(RECORD_SIZE, 8);
}

#[test]
fn decode_reads_fields_little_endian() {
    let stream = [0x78, 0x56, 0x34, 0x12, 0xff, 0x7f, 0x02, 0x05];
    let event = RawEvent::decode(&stream, 0).unwrap();
    assert_eq!(event.time, 0x1234_5678);
    assert_eq!(event.value, 32767);
    assert_eq!(event.kind, 2);
    assert_eq!(event.index, 5);
}

#[test]
fn decode_largest_time() {
    let stream = [0xff, 0xff, 0xff, 0xff, 0, 0, 0, 0];
    assert_eq!(RawEvent::decode(&stream, 0).unwrap().time, u32::MAX);
}

#[test]
fn decode_negative_values() {
    let lowest = [0, 0, 0, 0, 0x00, 0x80, 1, 0];
    assert_eq!(RawEvent::decode(&lowest, 0).unwrap().value, -32768);
    let minus_one = [0, 0, 0, 0, 0xff, 0xff, 1, 0];
    assert_eq!(RawEvent::decode(&minus_one, 0).unwrap().value, -1);
    let half = [0, 0, 0, 0, 0x00, 0xc0, 2, 1];
    assert_eq!(RawEvent::decode(&half, 0).unwrap().value, -16384);
}

#[test]
fn decode_agrees_with_native_little_endian() {
    for value in [i16::MIN, -16384, -1, 0, 1, 255, 256, 16383, i16::MAX] {
        for time in [0u32, 1, 0xff, 0x100, 0xdead_beef, u32::MAX] {
            let mut stream = Vec::new();
            stream.extend_from_slice(&time.to_le_bytes());
            stream.extend_from_slice(&value.to_le_bytes());
            stream.push(0x81);
            stream.push(7);
            let event = RawEvent::decode(&stream, 0).unwrap();
            assert_eq!(event, RawEvent { time, value, kind: 0x81, index: 7 });
        }
    }
}

#[test]
fn decode_picks_the_record_by_number() {
    let mut stream = Vec::new();
    for record in 0u8..5 {
        stream.extend_from_slice(&[record, 0, 0, 0, record, 0, 1, record]);
    }
    for record in 0u8..5 {
        let event = RawEvent::decode(&stream, record as usize).unwrap();
        assert_eq!(event.time, record as u32);
        assert_eq!(event.value, record as i16);
        assert_eq!(event.index, record);
    }
    assert_eq!(RawEvent::decode(&stream, 5), None);
}

#[test]
fn decode_rejects_an_incomplete_record() {
    assert_eq!(RawEvent::decode(&[], 0), None);
    assert_eq!(RawEvent::decode(&[1, 2, 3, 4, 5, 6, 7], 0), None);
    let stream = [0u8; 15];
    assert!(RawEvent::decode(&stream, 0).is_some());
    assert_eq!(RawEvent::decode(&stream, 1), None);
    assert_eq!(RawEvent::decode(&stream, usize::MAX), None);
}
