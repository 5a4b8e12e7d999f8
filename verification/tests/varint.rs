use remagic::cursor::Cursor;
use remagic::error::XnbError;
use remagic::varint::{encode_varint_i32, read_varint_count, read_varint_i32};

fn round_trip(v: i32) {
    let enc = encode_varint_i32(v);
    assert!(enc.len() <= 5);
    let mut cur = Cursor::new(enc.as_slice());
    let decoded = read_varint_i32(&mut cur).expect("decoding an encoded value");
    assert_eq!(decoded, v);
    assert_eq!(cur.offset(), enc.len());
}

#[test]
fn varint_round_trip_sample_values() {
    for v in [
        0,
        1,
        2,
        127,
        128,
        129,
        300,
        16383,
        16384,
        0x0FFF_FFFF,
        i32::MAX,
        -1,
        -128,
        -300,
        i32::MIN,
    ] {
        round_trip(v);
    }
}

#[test]
fn varint_known_encodings() {
    assert_eq!(encode_varint_i32(0), vec![0x00]);
    assert_eq!(encode_varint_i32(127), vec![0x7f]);
    assert_eq!(encode_varint_i32(128), vec![0x80, 0x01]);
    assert_eq!(encode_varint_i32(300), vec![0xac, 0x02]);
    assert_eq!(encode_varint_i32(-1), vec![0xff, 0xff, 0xff, 0xff, 0x0f]);
}

#[test]
fn varint_stops_at_terminating_byte() {
    // Trailing bytes after the terminator must not be consumed.
    let mut bytes = encode_varint_i32(300);
    let len = bytes.len();
    bytes.extend_from_slice(&[0xff, 0xff, 0xff]);
    let mut cur = Cursor::new(bytes.as_slice());
    let decoded = read_varint_i32(&mut cur).expect("decoding with a suffix");
    assert_eq!(decoded, 300);
    assert_eq!(cur.offset(), len);
}

#[test]
fn varint_rejects_six_continuation_bytes() {
    let bytes = [0x80u8, 0x80, 0x80, 0x80, 0x80, 0x00];
    let mut cur = Cursor::new(&bytes);
    let err = read_varint_i32(&mut cur).unwrap_err();
    assert!(matches!(err, XnbError::VarintTooLong { offset: 5 }));
}

#[test]
fn varint_rejects_truncated_chain() {
    let bytes = [0x80u8, 0x80];
    let mut cur = Cursor::new(&bytes);
    let err = read_varint_i32(&mut cur).unwrap_err();
    assert!(matches!(err, XnbError::UnexpectedEof { offset: 2 }));
}

#[test]
fn varint_count_rejects_negative() {
    let enc = encode_varint_i32(-1);
    let mut cur = Cursor::new(enc.as_slice());
    let err = read_varint_count(&mut cur).unwrap_err();
    assert!(matches!(err, XnbError::NegativeCount { offset: 0 }));
}

#[test]
fn varint_count_accepts_zero() {
    let bytes = [0x00u8];
    let mut cur = Cursor::new(&bytes);
    assert_eq!(read_varint_count(&mut cur).unwrap(), 0);
}
