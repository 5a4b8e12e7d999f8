use remagic::cursor::Cursor;
use remagic::dispatch::{object, object_any, shared_resource_ref};
use remagic::error::{Diagnostic, XnbError};
use remagic::header::parse_header;
use remagic::lzx::decompress;
use remagic::reader::{State, Stream, TypeReaderParser};
use remagic::registry::{BasicRegistry, BasicValue, EmptyParser};
use remagic::types::{AnyExternalReference, NetString, StringObjectParser};
use remagic::varint::encode_varint_i32;
use remagic::xnb::{SharedResourceAccessError, SharedResources, parse};

const STRING_READER: &str = "Microsoft.Xna.Framework.Content.StringReader";
const EXTERNAL_READER: &str = "Microsoft.Xna.Framework.Content.ExternalReferenceReader";

fn push_varint(buf: &mut Vec<u8>, v: i32) {
    buf.extend_from_slice(&encode_varint_i32(v));
}

fn push_string(buf: &mut Vec<u8>, s: &str) {
    push_varint(buf, s.len() as i32);
    buf.extend_from_slice(s.as_bytes());
}

fn push_reader_entry(buf: &mut Vec<u8>, name: &str, version: i32) {
    push_string(buf, name);
    buf.extend_from_slice(&version.to_le_bytes());
}

fn header(platform: u8, flags: u8) -> Vec<u8> {
    let mut buf = Vec::new();
    buf.extend_from_slice(b"XNB");
    buf.push(platform);
    buf.extend_from_slice(&[0, 0, 0, 0]);
    buf.push(flags);
    buf.extend_from_slice(&0u32.to_le_bytes());
    buf
}

fn empty_stream(bytes: &[u8]) -> Stream<'_> {
    Stream { input: Cursor::new(bytes), state: State { type_readers: Vec::new() } }
}

#[test]
fn header_fields_parse() {
    let mut bytes = Vec::new();
    bytes.extend_from_slice(b"XNB");
    bytes.push(0x77);
    bytes.extend_from_slice(&[9, 9, 9, 9]);
    bytes.push(0x80);
    bytes.extend_from_slice(&0x1234u32.to_le_bytes());
    let mut cur = Cursor::new(bytes.as_slice());
    let h = parse_header(&mut cur).unwrap();
    assert_eq!(h.platform, 0x77);
    assert_eq!(h.flags, 0x80);
    assert_eq!(h.file_size, 0x1234);
    assert_eq!(cur.offset(), 13);
}

#[test]
fn header_rejects_wrong_magic() {
    let bytes = b"ABCxxxxxxxxxx";
    let mut cur = Cursor::new(bytes.as_slice());
    let err = parse_header(&mut cur).unwrap_err();
    assert!(matches!(err, XnbError::BadMagic { offset: 0 }));
}

#[test]
fn header_rejects_short_input() {
    let bytes = b"XNB\x77";
    let mut cur = Cursor::new(bytes.as_slice());
    let err = parse_header(&mut cur).unwrap_err();
    assert!(matches!(err, XnbError::UnexpectedEof { .. }));
}

#[test]
fn empty_uncompressed_document() {
    // Scenario: uncompressed, empty type table, no shared resources, a
    // primary decoder that reads nothing.
    let mut bytes = header(0x77, 0x00);
    push_varint(&mut bytes, 0); // type-reader table count
    push_varint(&mut bytes, 0); // shared-resource count
    let asset = parse(bytes.as_slice(), &BasicRegistry, EmptyParser).unwrap();
    assert_eq!(*asset.inner(), ());
    assert_eq!(asset.shared_resource_count(), 0);
    assert!(asset.diagnostics().is_empty());
}

#[test]
fn trailing_bytes_are_reported() {
    let mut bytes = header(0x77, 0x00);
    push_varint(&mut bytes, 0);
    push_varint(&mut bytes, 0);
    bytes.extend_from_slice(&[1, 2, 3]);
    let asset = parse(bytes.as_slice(), &BasicRegistry, EmptyParser).unwrap();
    assert_eq!(asset.diagnostics().as_slice(), &[Diagnostic::TrailingBytes { count: 3 }]);
}

#[test]
fn unknown_platform_and_flags_are_soft() {
    let mut bytes = header(0x42, 0x01);
    push_varint(&mut bytes, 0);
    push_varint(&mut bytes, 0);
    let asset = parse(bytes.as_slice(), &BasicRegistry, EmptyParser).unwrap();
    assert_eq!(
        asset.diagnostics().as_slice(),
        &[
            Diagnostic::UnknownPlatform { platform: 0x42 },
            Diagnostic::UnhandledFlags { flags: 0x01 },
        ]
    );
}

#[test]
fn empty_compressed_body_expands_to_nothing() {
    // Scenario: a zero decompressed-size prefix and no frame bytes.
    let bytes = 0u32.to_le_bytes();
    let mut cur = Cursor::new(&bytes);
    let out = decompress(&mut cur).unwrap();
    assert!(out.is_empty());
    assert_eq!(cur.offset(), 4);
}

#[test]
fn compressed_end_marker_stops_expansion() {
    // A zero block size ends the stream; the rest is discarded, not an
    // error.
    let mut bytes = Vec::new();
    bytes.extend_from_slice(&0u32.to_le_bytes());
    bytes.extend_from_slice(&[0x00, 0x00]); // block size 0: end marker
    bytes.extend_from_slice(&[0xaa, 0xbb]); // deliberately unused
    let mut cur = Cursor::new(bytes.as_slice());
    let out = decompress(&mut cur).unwrap();
    assert!(out.is_empty());
}

#[test]
fn decompressed_size_over_cap_is_rejected() {
    let bytes = 0x4000_0001u32.to_le_bytes();
    let mut cur = Cursor::new(&bytes);
    let err = decompress(&mut cur).unwrap_err();
    assert!(matches!(err, XnbError::SizeTooLarge { size: 0x4000_0001, .. }));
}

#[test]
fn corrupt_block_is_fatal() {
    let mut bytes = Vec::new();
    bytes.extend_from_slice(&32u32.to_le_bytes()); // declared size
    bytes.extend_from_slice(&[0x00, 0x01]); // block size 1
    bytes.push(0x32); // junk block data
    let mut cur = Cursor::new(bytes.as_slice());
    let err = decompress(&mut cur).unwrap_err();
    assert!(matches!(err, XnbError::BadBlock { offset: 4 }));
}

#[test]
fn primary_string_through_table() {
    // Scenario: one table entry with a registered identity; the primary
    // object dispatches through it with id 1.
    let mut bytes = header(0x77, 0x00);
    push_varint(&mut bytes, 1);
    push_reader_entry(&mut bytes, STRING_READER, 0);
    push_varint(&mut bytes, 0); // shared resources
    push_varint(&mut bytes, 1); // id 1: first table entry
    push_string(&mut bytes, "hello");
    let asset =
        parse(bytes.as_slice(), &BasicRegistry, object::<NetString, _>(StringObjectParser))
            .unwrap();
    match asset.inner() {
        Some(NetString(s)) => assert_eq!(s, "hello"),
        None => panic!("expected a decoded string"),
    }
    assert!(asset.diagnostics().is_empty());
}

#[test]
fn type_id_past_table_is_out_of_range() {
    // Scenario: id 2 against a table of length 1.
    let mut bytes = header(0x77, 0x00);
    push_varint(&mut bytes, 1);
    push_reader_entry(&mut bytes, STRING_READER, 0);
    push_varint(&mut bytes, 0);
    push_varint(&mut bytes, 2); // id 2: past the one-entry table
    let err = parse(bytes.as_slice(), &BasicRegistry, object::<NetString, _>(StringObjectParser))
        .unwrap_err();
    match err {
        XnbError::TypeIdOutOfRange { type_id, type_count, .. } => {
            assert_eq!(type_id, 2);
            assert_eq!(type_count, 1);
        },
        other => panic!("expected TypeIdOutOfRange, got {:?}", other),
    }
}

#[test]
fn zero_id_means_no_value_even_with_empty_table() {
    let mut bytes = header(0x77, 0x00);
    push_varint(&mut bytes, 0); // empty table
    push_varint(&mut bytes, 0);
    push_varint(&mut bytes, 0); // id 0: no value
    let asset =
        parse(bytes.as_slice(), &BasicRegistry, object::<NetString, _>(StringObjectParser))
            .unwrap();
    assert!(asset.inner().is_none());
}

#[test]
fn zero_id_means_no_value_in_erased_dispatch() {
    let bytes = [0x00u8];
    let mut stream = empty_stream(&bytes);
    let r = object_any(&BasicRegistry, &mut stream).unwrap();
    assert!(r.is_none());
}

#[test]
fn erased_dispatch_out_of_range_reports_table_length() {
    let bytes = [0x05u8];
    let mut stream = empty_stream(&bytes);
    let err = object_any(&BasicRegistry, &mut stream).unwrap_err();
    match err {
        XnbError::TypeIdOutOfRange { type_id, type_count, .. } => {
            assert_eq!(type_id, 5);
            assert_eq!(type_count, 0);
        },
        other => panic!("expected TypeIdOutOfRange, got {:?}", other),
    }
}

#[test]
fn unresolved_entry_is_no_type_reader() {
    // The entry is kept when the table is read; dispatching through it
    // is what fails.
    let mut table_bytes = Vec::new();
    push_varint(&mut table_bytes, 1);
    push_reader_entry(&mut table_bytes, "Some.Unknown.Reader", 7);
    let mut tcur = Cursor::new(table_bytes.as_slice());
    let entries = remagic::reader::read_type_reader_table(&BasicRegistry, &mut tcur).unwrap();
    let mut body = Vec::new();
    push_varint(&mut body, 1); // id 1: the unresolved entry
    let mut stream =
        Stream { input: Cursor::new(body.as_slice()), state: State { type_readers: entries } };
    let err = object_any(&BasicRegistry, &mut stream).unwrap_err();
    match err {
        XnbError::NoTypeReader { name, version, .. } => {
            assert_eq!(name, "Some.Unknown.Reader");
            assert_eq!(version, 7);
        },
        other => panic!("expected NoTypeReader, got {:?}", other),
    }
}

#[test]
fn wrong_type_names_both_identities_and_stops_at_id() {
    // A statically-checked read against a table entry of the other
    // registered identity.
    // Build the table through the engine: one entry for the external
    // reference reader.
    let mut table_bytes = Vec::new();
    push_varint(&mut table_bytes, 1);
    push_reader_entry(&mut table_bytes, EXTERNAL_READER, 0);
    let mut tcur = Cursor::new(table_bytes.as_slice());
    let entries =
        remagic::reader::read_type_reader_table(&BasicRegistry, &mut tcur).unwrap();
    let mut body = Vec::new();
    push_varint(&mut body, 1);
    let mut stream = Stream {
        input: Cursor::new(body.as_slice()),
        state: State { type_readers: entries },
    };
    let parser = object::<NetString, _>(StringObjectParser);
    let err = parser.parse_next(&mut stream).unwrap_err();
    match err {
        XnbError::WrongType { expected, found, .. } => {
            assert_eq!(expected.name, STRING_READER);
            assert_eq!(expected.version, 0);
            assert_eq!(found.name, EXTERNAL_READER);
            assert_eq!(found.version, 0);
        },
        other => panic!("expected WrongType, got {:?}", other),
    }
    // No bytes were consumed beyond the checked id.
    assert_eq!(stream.input.offset(), 1);
}

fn shared_doc(second_slot_payload: &[u8]) -> Vec<u8> {
    let mut bytes = header(0x77, 0x00);
    push_varint(&mut bytes, 1);
    push_reader_entry(&mut bytes, STRING_READER, 0);
    push_varint(&mut bytes, 3); // three shared slots declared
    push_varint(&mut bytes, 0); // primary: no value
    // slot 0: a string through entry 1
    push_varint(&mut bytes, 1);
    push_string(&mut bytes, "first");
    bytes.extend_from_slice(second_slot_payload);
    bytes
}

#[test]
fn shared_resources_decode_in_order() {
    let mut tail = Vec::new();
    push_varint(&mut tail, 1);
    push_string(&mut tail, "second");
    push_varint(&mut tail, 0); // slot 2: legitimately null
    let bytes = shared_doc(&tail);
    let asset =
        parse(bytes.as_slice(), &BasicRegistry, object::<NetString, _>(StringObjectParser))
            .unwrap();
    assert_eq!(asset.shared_resource_count(), 3);
    assert!(asset.diagnostics().is_empty());

    let mut rb = Vec::new();
    push_varint(&mut rb, 1); // handle on slot 0
    let mut rstream = empty_stream(rb.as_slice());
    let r0 = shared_resource_ref::<NetString>(&mut rstream).unwrap().unwrap();
    match asset.shared_resource(&r0).unwrap() {
        Some(BasicValue::Text(NetString(s))) => assert_eq!(s, "first"),
        other => panic!("expected the first string, got {:?}", other.is_some()),
    }
}

#[test]
fn failed_shared_slot_truncates_the_rest() {
    // Slot 1 carries invalid UTF-8, so it and slot 2 are abandoned while
    // slot 0 stays; the diagnostic counts exactly the abandoned slots.
    let mut tail = Vec::new();
    push_varint(&mut tail, 1);
    push_varint(&mut tail, 1); // one payload byte follows
    tail.push(0xff); // not UTF-8
    push_varint(&mut tail, 0); // slot 2 would be null, never reached
    let bytes = shared_doc(&tail);
    let asset =
        parse(bytes.as_slice(), &BasicRegistry, object::<NetString, _>(StringObjectParser))
            .unwrap();
    assert_eq!(asset.shared_resource_count(), 1);
    assert_eq!(
        asset.diagnostics().first(),
        Some(&Diagnostic::SharedResourcesSkipped { skipped: 2 })
    );

    // Slot 0 is still present; slots 1 and 2 resolve as out of range.
    let mut rb = Vec::new();
    push_varint(&mut rb, 1);
    push_varint(&mut rb, 2);
    push_varint(&mut rb, 3);
    push_varint(&mut rb, 0);
    let mut rstream = empty_stream(rb.as_slice());
    let r0 = shared_resource_ref::<NetString>(&mut rstream).unwrap().unwrap();
    let r1 = shared_resource_ref::<NetString>(&mut rstream).unwrap().unwrap();
    let r2 = shared_resource_ref::<NetString>(&mut rstream).unwrap().unwrap();
    let none = shared_resource_ref::<NetString>(&mut rstream).unwrap();
    assert!(none.is_none()); // id 0 is "no reference"
    assert!(asset.shared_resource(&r0).unwrap().is_some());
    assert_eq!(
        asset.shared_resource(&r1).unwrap_err(),
        SharedResourceAccessError::OutOfRangeOrUnparsed
    );
    assert_eq!(
        asset.shared_resource(&r2).unwrap_err(),
        SharedResourceAccessError::OutOfRangeOrUnparsed
    );
}

#[test]
fn typed_resolution_checks_the_identity() {
    let mut tail = Vec::new();
    push_varint(&mut tail, 1);
    push_string(&mut tail, "second");
    push_varint(&mut tail, 0);
    let bytes = shared_doc(&tail);
    let asset =
        parse(bytes.as_slice(), &BasicRegistry, object::<NetString, _>(StringObjectParser))
            .unwrap();

    // Slot 0 was decoded as a string; asking for an external reference
    // is a wrong-type resolution, and the null slot resolves to nothing.
    let mut rb = Vec::new();
    push_varint(&mut rb, 1);
    push_varint(&mut rb, 1);
    push_varint(&mut rb, 3);
    let mut rstream = empty_stream(rb.as_slice());
    let as_string = shared_resource_ref::<NetString>(&mut rstream).unwrap().unwrap();
    let as_ext = shared_resource_ref::<AnyExternalReference>(&mut rstream).unwrap().unwrap();
    let null_slot = shared_resource_ref::<NetString>(&mut rstream).unwrap().unwrap();
    assert!(asset.shared_resource(&as_string).unwrap().is_some());
    assert_eq!(
        asset.shared_resource(&as_ext).unwrap_err(),
        SharedResourceAccessError::WrongType
    );
    assert!(asset.shared_resource(&null_slot).unwrap().is_none());
}

#[test]
fn empty_shared_resources_always_out_of_range() {
    let empty = remagic::xnb::EmptySharedResources;
    let mut rb = Vec::new();
    push_varint(&mut rb, 1);
    let mut rstream = empty_stream(rb.as_slice());
    let r0 = shared_resource_ref::<NetString>(&mut rstream).unwrap().unwrap();
    let got: Result<Option<&BasicValue>, _> = empty.shared_resource(&r0);
    assert_eq!(got.unwrap_err(), SharedResourceAccessError::OutOfRangeOrUnparsed);
}

#[test]
fn bad_magic_fails_the_whole_parse() {
    let bytes = b"NOTXNB_AT_ALL";
    let err = parse(bytes.as_slice(), &BasicRegistry, EmptyParser).map(|_| ()).unwrap_err();
    assert!(matches!(err, XnbError::BadMagic { offset: 0 }));
}

#[test]
fn truncated_table_entry_reports_where_bytes_ran_out() {
    // Body offsets: count varint at 0, the entry's name length at 1, its
    // five name bytes declared at 2 but absent.
    let mut bytes = header(0x77, 0x00);
    bytes.push(0x01); // one table entry
    bytes.push(0x05); // name of five bytes ...
    bytes.extend_from_slice(b"ab"); // ... but only two are present
    let err = parse(bytes.as_slice(), &BasicRegistry, EmptyParser).map(|_| ()).unwrap_err();
    assert!(matches!(err, XnbError::UnexpectedEof { offset: 2 }));
}

#[test]
fn negative_shared_count_is_rejected_in_place() {
    let mut bytes = header(0x77, 0x00);
    push_varint(&mut bytes, 0); // empty table, body offset 0
    push_varint(&mut bytes, -1); // shared count at body offset 1
    let err = parse(bytes.as_slice(), &BasicRegistry, EmptyParser).map(|_| ()).unwrap_err();
    assert!(matches!(err, XnbError::NegativeCount { offset: 1 }));
}
