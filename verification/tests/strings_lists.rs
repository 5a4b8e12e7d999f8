use remagic::cursor::Cursor;
use remagic::error::XnbError;
use remagic::lzx::decompress;
use remagic::reader::{State, Stream};
use remagic::types::{NetString, StringObjectParser, read_bool, read_string};
use remagic::varint::encode_varint_i32;
use remagic::xnb::quicklist;

fn push_string(buf: &mut Vec<u8>, s: &str) {
    buf.extend_from_slice(&encode_varint_i32(s.len() as i32));
    buf.extend_from_slice(s.as_bytes());
}

/// One LZX chunk holding an uncompressed block whose payload is `abc`.
const ABC_CHUNK: [u8; 20] = [
    0x00, 0x30, 0x30, 0x00, 0x01, 0x00, 0x00, 0x00, 0x01, 0x00, 0x00, 0x00, 0x01, 0x00, 0x00,
    0x00, b'a', b'b', b'c', 0x00,
];

#[test]
fn string_round_trips_through_reader() {
    let mut bytes = Vec::new();
    push_string(&mut bytes, "pâté");
    let mut cur = Cursor::new(bytes.as_slice());
    let s = read_string(&mut cur).unwrap();
    assert_eq!(s, "pâté");
    assert_eq!(cur.offset(), bytes.len());
}

#[test]
fn empty_string_reads_empty() {
    let bytes = [0x00u8];
    let mut cur = Cursor::new(&bytes);
    assert_eq!(read_string(&mut cur).unwrap(), "");
}

#[test]
fn invalid_utf8_is_rejected() {
    let bytes = [0x01u8, 0xff];
    let mut cur = Cursor::new(&bytes);
    let err = read_string(&mut cur).unwrap_err();
    assert!(matches!(err, XnbError::InvalidString { offset: 1 }));
}

#[test]
fn string_shorter_than_its_length_is_rejected() {
    let bytes = [0x05u8, b'h', b'i'];
    let mut cur = Cursor::new(&bytes);
    let err = read_string(&mut cur).unwrap_err();
    assert!(matches!(err, XnbError::UnexpectedEof { offset: 1 }));
}

#[test]
fn bools_read_one_byte() {
    let bytes = [0x00u8, 0x01, 0x7f];
    let mut cur = Cursor::new(&bytes);
    assert!(!read_bool(&mut cur).unwrap());
    assert!(read_bool(&mut cur).unwrap());
    assert!(read_bool(&mut cur).unwrap());
    assert!(read_bool(&mut cur).is_err());
}

#[test]
fn quicklist_reads_counted_items() {
    let mut bytes = Vec::new();
    bytes.extend_from_slice(&2u32.to_le_bytes());
    push_string(&mut bytes, "one");
    push_string(&mut bytes, "two");
    let mut stream =
        Stream { input: Cursor::new(bytes.as_slice()), state: State { type_readers: Vec::new() } };
    let items = quicklist(&StringObjectParser, &mut stream).unwrap();
    assert_eq!(items.len(), 2);
    assert_eq!(items[0].0, "one");
    assert_eq!(items[1].0, "two");
}

#[test]
fn quicklist_rejects_negative_count() {
    let mut bytes = Vec::new();
    bytes.extend_from_slice(&(-1i32).to_le_bytes());
    let mut stream =
        Stream { input: Cursor::new(bytes.as_slice()), state: State { type_readers: Vec::new() } };
    let err = quicklist::<StringObjectParser>(&StringObjectParser, &mut stream)
        .map(|v: Vec<NetString>| v.len())
        .unwrap_err();
    assert!(matches!(err, XnbError::NegativeCount { .. }));
}

#[test]
fn frames_expand_through_the_window() {
    // One frame with an explicit three-byte frame size; the block is an
    // uncompressed LZX chunk, so the expander must hand back its payload,
    // not the block bytes themselves.
    let mut bytes = Vec::new();
    bytes.extend_from_slice(&3u32.to_le_bytes()); // declared size
    bytes.push(0xff); // escape: explicit frame size follows
    bytes.extend_from_slice(&[0x00, 0x03]); // frame size 3 (big endian)
    bytes.extend_from_slice(&[0x00, 0x14]); // block size 20 (big endian)
    bytes.extend_from_slice(&ABC_CHUNK);
    let mut cur = Cursor::new(bytes.as_slice());
    let out = decompress(&mut cur).unwrap();
    assert_eq!(out, b"abc");
}

#[test]
fn unreached_output_stays_zero() {
    // The declared size exceeds what the frames produce; the rest of the
    // buffer is zero, as the window never wrote it.
    let mut bytes = Vec::new();
    bytes.extend_from_slice(&5u32.to_le_bytes());
    bytes.push(0xff);
    bytes.extend_from_slice(&[0x00, 0x03]);
    bytes.extend_from_slice(&[0x00, 0x14]);
    bytes.extend_from_slice(&ABC_CHUNK);
    let mut cur = Cursor::new(bytes.as_slice());
    let out = decompress(&mut cur).unwrap();
    assert_eq!(out, b"abc\0\0");
}

#[test]
fn small_integers_read_little_endian() {
    let bytes = [0x34u8, 0x12, 0xff, 0xff, 0x78, 0x56, 0x34, 0x12];
    let mut cur = Cursor::new(&bytes);
    assert_eq!(cur.read_u16_le().unwrap(), 0x1234);
    assert_eq!(cur.read_i16_le().unwrap(), -1);
    assert_eq!(cur.read_i32_le().unwrap(), 0x12345678);
    assert!(cur.read_u16_le().is_none());
}
