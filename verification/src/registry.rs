//! A small compiled-in registry covering the content types the engine
//! itself knows: strings and external file references.  Game-specific
//! leaf decoders plug in the same way, through their own
//! [`TypeReaderParserMaker`] implementation.

use vstd::prelude::*;
use crate::dispatch::{BoxingParser, ErasedValue};
use crate::error::XnbError;
use crate::reader::{Stream, StreamV, TypeReaderInfo, TypeReaderInfoV, TypeReaderMeta,
    TypeReaderParser, TypeReaderParserMaker};
use crate::types::{AnyExternalReference, NetString, StringObjectParser, spec_string_at};

verus! {

/// A decoder for content that carries no payload bytes at all.
pub struct EmptyParser;

impl TypeReaderParser for EmptyParser {
    type Output = ();

    open spec fn wf(&self) -> bool {
        true
    }

    open spec fn spec_parse(&self, s: StreamV) -> Option<((), int)> {
        Some(((), s.pos))
    }

    fn parse_next(&self, input: &mut Stream) -> (r: Result<(), XnbError>) {
        Ok(())
    }
}

/// The decoder for [`AnyExternalReference`], as a pluggable reader.
pub struct ExternalReferenceParser;

impl TypeReaderParser for ExternalReferenceParser {
    type Output = AnyExternalReference;

    open spec fn wf(&self) -> bool {
        true
    }

    open spec fn spec_parse(&self, s: StreamV) -> Option<(Seq<char>, int)> {
        spec_string_at(s.data, s.pos)
    }

    fn parse_next(&self, input: &mut Stream) -> (r: Result<AnyExternalReference, XnbError>) {
        AnyExternalReference::parse(input)
    }
}

/// The type-erased value of the basic registry.
#[derive(Debug)]
pub enum BasicValue {
    Text(NetString),
    ExternalReference(AnyExternalReference),
}

/// The mathematical image of a [`BasicValue`].
pub ghost enum BasicValueV {
    Text(Seq<char>),
    ExternalReference(Seq<char>),
}

impl DeepView for BasicValue {
    type V = BasicValueV;

    open spec fn deep_view(&self) -> BasicValueV {
        match self {
            BasicValue::Text(t) => BasicValueV::Text(t.deep_view()),
            BasicValue::ExternalReference(e) => BasicValueV::ExternalReference(e.deep_view()),
        }
    }
}

impl ErasedValue<NetString> for BasicValue {
    open spec fn spec_box(v: Seq<char>) -> BasicValueV {
        BasicValueV::Text(v)
    }

    fn box_value(v: NetString) -> (r: BasicValue) {
        BasicValue::Text(v)
    }
}

impl ErasedValue<AnyExternalReference> for BasicValue {
    open spec fn spec_box(v: Seq<char>) -> BasicValueV {
        BasicValueV::ExternalReference(v)
    }

    fn box_value(v: AnyExternalReference) -> (r: BasicValue) {
        BasicValue::ExternalReference(v)
    }
}

/// The registry itself: two readers in a fixed arena, strings at handle
/// `0` and external references at handle `1`.
pub struct BasicRegistry;

impl TypeReaderParserMaker for BasicRegistry {
    type Value = BasicValue;

    open spec fn wf(&self) -> bool {
        true
    }

    open spec fn spec_resolve(&self, info: TypeReaderInfoV) -> Option<int> {
        if info.name == NetString::spec_name() && info.version == NetString::spec_version() {
            Some(0)
        } else if info.name == AnyExternalReference::spec_name() && info.version
            == AnyExternalReference::spec_version() {
            Some(1)
        } else {
            None
        }
    }

    open spec fn spec_run(&self, handle: int, s: StreamV) -> Option<(BasicValueV, int)> {
        if handle == 0 {
            match spec_string_at(s.data, s.pos) {
                Some((chars, end)) => Some((BasicValueV::Text(chars), end)),
                None => None,
            }
        } else if handle == 1 {
            match spec_string_at(s.data, s.pos) {
                Some((chars, end)) => Some((BasicValueV::ExternalReference(chars), end)),
                None => None,
            }
        } else {
            None
        }
    }

    fn make(&self, info: &TypeReaderInfo) -> (r: Option<usize>) {
        let string_name = NetString::name();
        if info.name == string_name && info.version == NetString::version() {
            return Some(0);
        }
        let ext_name = AnyExternalReference::name();
        if info.name == ext_name && info.version == AnyExternalReference::version() {
            return Some(1);
        }
        None
    }

    fn run(&self, handle: usize, input: &mut Stream) -> (r: Result<BasicValue, XnbError>) {
        if handle == 0 {
            let parser: BoxingParser<StringObjectParser, BasicValue> = BoxingParser::new(
                StringObjectParser,
            );
            parser.parse_next(input)
        } else if handle == 1 {
            let parser: BoxingParser<ExternalReferenceParser, BasicValue> = BoxingParser::new(
                ExternalReferenceParser,
            );
            parser.parse_next(input)
        } else {
            // No reader stands behind this handle.
            Err(
                XnbError::NoTypeReader {
                    offset: input.input.offset(),
                    name: String::new(),
                    version: 0,
                },
            )
        }
    }
}

} // verus!
