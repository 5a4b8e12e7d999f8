//! Primitive value readers and the handful of framework-level content
//! types the engine itself knows: length-prefixed strings and external
//! file references.

use core::marker::PhantomData;
use vstd::prelude::*;
use vstd::utf8::{decode_utf8, valid_utf8};
use crate::cursor::Cursor;
use crate::error::XnbError;
use crate::reader::{Stream, TypeReaderMeta, TypeReaderParser};
use crate::varint::spec_varint;

verus! {

/// Relies on `String::from_utf8`: it succeeds exactly on valid UTF-8
/// input, and then returns that input's characters (vstd's UTF-8 model).
#[verifier::external_body]
fn bytes_to_string(bytes: Vec<u8>) -> (r: Option<String>)
    ensures
        r is Some <==> valid_utf8(bytes@),
        r is Some ==> r->0@ == decode_utf8(bytes@),
{
    String::from_utf8(bytes).ok()
}

/// What the length-prefixed UTF-8 string at `pos` denotes: its characters
/// and the position after it.  `None` when the length varint is bad or
/// negative, the bytes run out, or they are not valid UTF-8.
pub open spec fn spec_string_at(s: Seq<u8>, pos: int) -> Option<(Seq<char>, int)> {
    match spec_varint(s, pos) {
        Some((v, p2)) => {
            if v < 0x80000000 && p2 + v <= s.len() {
                if valid_utf8(s.subrange(p2, p2 + v)) {
                    Some((decode_utf8(s.subrange(p2, p2 + v)), p2 + v))
                } else {
                    None
                }
            } else {
                None
            }
        },
        None => None,
    }
}

/// The error a failed string read reports, as a function of the bytes:
/// the length varint's own failure, a negative length, bytes running
/// out, or invalid UTF-8, in that order of detection.
pub open spec fn spec_string_failure(s: Seq<u8>, pos: int) -> XnbError {
    match spec_varint(s, pos) {
        None => crate::varint::spec_varint_failure(s, pos),
        Some((v, p2)) => {
            if v >= 0x80000000 {
                XnbError::NegativeCount { offset: pos as usize }
            } else if p2 + v > s.len() {
                XnbError::UnexpectedEof { offset: p2 as usize }
            } else {
                XnbError::InvalidString { offset: p2 as usize }
            }
        },
    }
}

/// Read a length-prefixed UTF-8 string: a varint byte count, then that
/// many bytes, which must be valid UTF-8.
pub fn read_string(cur: &mut Cursor) -> (r: Result<String, XnbError>)
    requires
        old(cur).wf(),
    ensures
        final(cur).wf(),
        final(cur).data() == old(cur).data(),
        old(cur).pos() <= final(cur).pos() <= final(cur).data().len(),
        match spec_string_at(old(cur).data(), old(cur).pos()) {
            Some((chars, end)) => r is Ok && r->Ok_0@ == chars && final(cur).pos() == end,
            None => r is Err && r->Err_0 == spec_string_failure(old(cur).data(), old(cur).pos()),
        },
{
    let len = crate::varint::read_varint_count(cur)?;
    let start = cur.offset();
    let bytes = match cur.read_bytes(len) {
        Some(b) => b,
        None => {
            return Err(XnbError::UnexpectedEof { offset: start });
        },
    };
    match bytes_to_string(bytes) {
        Some(text) => Ok(text),
        None => Err(XnbError::InvalidString { offset: start }),
    }
}

/// Read one byte as a boolean: zero is `false`, anything else `true`.
pub fn read_bool(cur: &mut Cursor) -> (r: Result<bool, XnbError>)
    requires
        old(cur).wf(),
    ensures
        final(cur).wf(),
        final(cur).data() == old(cur).data(),
        r is Ok <==> old(cur).pos() < old(cur).data().len(),
        r is Ok ==> r->Ok_0 == (old(cur).data()[old(cur).pos()] != 0) && final(cur).pos() == old(
            cur,
        ).pos() + 1,
        r is Err ==> final(cur).pos() == old(cur).pos(),
{
    match cur.read_u8() {
        Some(b) => Ok(b != 0),
        None => Err(XnbError::UnexpectedEof { offset: cur.offset() }),
    }
}

/// A string decoded through the table-dispatched string reader.
#[derive(Debug)]
pub struct NetString(pub String);

impl DeepView for NetString {
    type V = Seq<char>;

    open spec fn deep_view(&self) -> Seq<char> {
        self.0@
    }
}

impl TypeReaderMeta for NetString {
    open spec fn spec_name() -> Seq<char> {
        "Microsoft.Xna.Framework.Content.StringReader"@
    }

    open spec fn spec_version() -> int {
        0
    }

    fn name() -> (r: String) {
        "Microsoft.Xna.Framework.Content.StringReader".to_owned()
    }

    fn version() -> (r: i32) {
        0
    }
}

/// Decode a [`NetString`]: the payload is one length-prefixed string.
pub fn string_object(input: &mut Stream) -> (r: Result<NetString, XnbError>)
    requires
        old(input).wf(),
    ensures
        final(input).wf(),
        final(input)@.data == old(input)@.data,
        final(input)@.table == old(input)@.table,
        old(input)@.pos <= final(input)@.pos <= final(input)@.data.len(),
        match spec_string_at(old(input)@.data, old(input)@.pos) {
            Some((chars, end)) => r is Ok && r->Ok_0.0@ == chars && final(input)@.pos == end,
            None => r is Err,
        },
{
    let text = read_string(&mut input.input)?;
    Ok(NetString(text))
}

/// The decoder for [`NetString`], as a pluggable reader.
pub struct StringObjectParser;

impl TypeReaderParser for StringObjectParser {
    type Output = NetString;

    open spec fn wf(&self) -> bool {
        true
    }

    open spec fn spec_parse(&self, s: crate::reader::StreamV) -> Option<(Seq<char>, int)> {
        spec_string_at(s.data, s.pos)
    }

    fn parse_next(&self, input: &mut Stream) -> (r: Result<NetString, XnbError>) {
        string_object(input)
    }
}

/// A reference to another content file, read type-erased.
#[derive(Debug)]
pub struct AnyExternalReference {
    pub path: String,
}

impl DeepView for AnyExternalReference {
    type V = Seq<char>;

    open spec fn deep_view(&self) -> Seq<char> {
        self.path@
    }
}

impl TypeReaderMeta for AnyExternalReference {
    open spec fn spec_name() -> Seq<char> {
        "Microsoft.Xna.Framework.Content.ExternalReferenceReader"@
    }

    open spec fn spec_version() -> int {
        0
    }

    fn name() -> (r: String) {
        "Microsoft.Xna.Framework.Content.ExternalReferenceReader".to_owned()
    }

    fn version() -> (r: i32) {
        0
    }
}

impl AnyExternalReference {
    /// Decode: the payload is one length-prefixed path.
    pub fn parse(input: &mut Stream) -> (r: Result<AnyExternalReference, XnbError>)
        requires
            old(input).wf(),
        ensures
            final(input).wf(),
            final(input)@.data == old(input)@.data,
            final(input)@.table == old(input)@.table,
            old(input)@.pos <= final(input)@.pos <= final(input)@.data.len(),
            match spec_string_at(old(input)@.data, old(input)@.pos) {
                Some((chars, end)) => r is Ok && r->Ok_0.path@ == chars && final(input)@.pos
                    == end,
                None => r is Err,
            },
    {
        let path = read_string(&mut input.input)?;
        Ok(AnyExternalReference { path })
    }
}

/// A reference to another content file of a known static type.
#[derive(Debug)]
pub struct ExternalReference<T> {
    pub path: String,
    pub _marker: PhantomData<T>,
}

impl<T> DeepView for ExternalReference<T> {
    type V = Seq<char>;

    open spec fn deep_view(&self) -> Seq<char> {
        self.path@
    }
}

impl<T> TypeReaderMeta for ExternalReference<T> {
    open spec fn spec_name() -> Seq<char> {
        "Microsoft.Xna.Framework.Content.ExternalReferenceReader"@
    }

    open spec fn spec_version() -> int {
        0
    }

    fn name() -> (r: String) {
        "Microsoft.Xna.Framework.Content.ExternalReferenceReader".to_owned()
    }

    fn version() -> (r: i32) {
        0
    }
}

/// Decode a typed external reference: the payload is one path string.
pub fn external_ref<T>(input: &mut Stream) -> (r: Result<ExternalReference<T>, XnbError>)
    requires
        old(input).wf(),
    ensures
        final(input).wf(),
        final(input)@.data == old(input)@.data,
        final(input)@.table == old(input)@.table,
        old(input)@.pos <= final(input)@.pos <= final(input)@.data.len(),
        match spec_string_at(old(input)@.data, old(input)@.pos) {
            Some((chars, end)) => r is Ok && r->Ok_0.path@ == chars && final(input)@.pos == end,
            None => r is Err,
        },
{
    let path = read_string(&mut input.input)?;
    Ok(ExternalReference { path, _marker: PhantomData })
}

} // verus!
