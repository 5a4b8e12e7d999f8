//! Type identities, the per-document type-reader table, and the traits
//! through which concrete content decoders plug into the engine.
//!
//! A document opens with an ordered table of [`TypeReaderInfo`] entries.
//! Each entry is resolved against a caller-supplied registry (the
//! [`TypeReaderParserMaker`]); entries the registry does not recognise are
//! kept with no reader, which only becomes an error if the body later
//! dispatches through them.  The table is fixed once read.

use vstd::prelude::*;
use crate::cursor::Cursor;
use crate::error::XnbError;
use crate::types::read_string;
use crate::varint::{read_varint_count, spec_varint};

verus! {

/// The canonical key by which a content type is recognised: a type-reader
/// name together with a format version.  Compared by value equality.
#[derive(Debug)]
pub struct TypeReaderInfo {
    pub name: String,
    pub version: i32,
}

/// The mathematical image of a [`TypeReaderInfo`].
pub ghost struct TypeReaderInfoV {
    pub name: Seq<char>,
    pub version: int,
}

impl View for TypeReaderInfo {
    type V = TypeReaderInfoV;

    open spec fn view(&self) -> TypeReaderInfoV {
        TypeReaderInfoV { name: self.name@, version: self.version as int }
    }
}

impl TypeReaderInfo {
    /// Value equality on the name's characters and the version.
    pub open spec fn matches(&self, other: &TypeReaderInfo) -> bool {
        self@ == other@
    }

    pub fn clone(&self) -> (r: TypeReaderInfo)
        ensures
            r@ == self@,
    {
        TypeReaderInfo { name: self.name.clone(), version: self.version }
    }
}

impl PartialEq for TypeReaderInfo {
    fn eq(&self, other: &TypeReaderInfo) -> (r: bool) {
        self.name == other.name && self.version == other.version
    }
}

impl vstd::std_specs::cmp::PartialEqSpecImpl for TypeReaderInfo {
    open spec fn obeys_eq_spec() -> bool {
        true
    }

    open spec fn eq_spec(&self, other: &TypeReaderInfo) -> bool {
        self.matches(other)
    }
}

impl Eq for TypeReaderInfo {

}

/// One slot of the per-document table: the declared identity, and the
/// registry handle it resolved to, if any.
pub struct TypeReaderEntry {
    pub info: TypeReaderInfo,
    /// Index into the registry's reader arena; `None` when the document
    /// names a type the registry does not recognise.
    pub reader: Option<usize>,
}

/// The mathematical image of a [`TypeReaderEntry`].
pub ghost struct TypeReaderEntryV {
    pub info: TypeReaderInfoV,
    pub reader: Option<int>,
}

impl View for TypeReaderEntry {
    type V = TypeReaderEntryV;

    open spec fn view(&self) -> TypeReaderEntryV {
        TypeReaderEntryV {
            info: self.info@,
            reader: match self.reader {
                Some(h) => Some(h as int),
                None => None,
            },
        }
    }
}

/// The document-local state carried beside the cursor: the type-reader
/// table, fixed once read.
pub struct State {
    pub type_readers: Vec<TypeReaderEntry>,
}

impl View for State {
    type V = Seq<TypeReaderEntryV>;

    open spec fn view(&self) -> Seq<TypeReaderEntryV> {
        self.type_readers@.map_values(|e: TypeReaderEntry| e@)
    }
}

/// The content stream: a cursor over the (decompressed) body plus the
/// document's type-reader table.
pub struct Stream<'i> {
    pub input: Cursor<'i>,
    pub state: State,
}

/// The mathematical image of a [`Stream`]: the body bytes, the read
/// position, and the resolved table.
pub ghost struct StreamV {
    pub data: Seq<u8>,
    pub pos: int,
    pub table: Seq<TypeReaderEntryV>,
}

impl StreamV {
    /// The same stream at another read position.
    pub open spec fn at(self, pos: int) -> StreamV {
        StreamV { pos, ..self }
    }
}

impl<'i> Stream<'i> {
    pub open spec fn view(&self) -> StreamV {
        StreamV { data: self.input.data(), pos: self.input.pos(), table: self.state@ }
    }

    pub open spec fn wf(&self) -> bool {
        self.input.wf()
    }
}

/// A statically-decodable content type: it knows the table identity under
/// which documents declare it.
pub trait TypeReaderMeta {
    /// The declared type-reader name.
    spec fn spec_name() -> Seq<char>;

    /// The declared format version.
    spec fn spec_version() -> int;

    fn name() -> (r: String)
        ensures
            r@ == Self::spec_name(),
    ;

    fn version() -> (r: i32)
        ensures
            r as int == Self::spec_version(),
    ;
}

/// A decoder for one concrete content type, reading from the content
/// stream.  `spec_parse` is the decoder's functional specification:
/// `parse_next` must return exactly what it says, fail exactly when it
/// says `None`, and may only move the cursor forward over an unchanged
/// buffer and table.
pub trait TypeReaderParser {
    type Output: DeepView;

    /// Well-formedness of the decoder value itself.
    spec fn wf(&self) -> bool;

    /// What this decoder yields on a given stream: the decoded value's
    /// mathematical image and the position after it, or `None` when it
    /// fails.
    spec fn spec_parse(&self, s: StreamV) -> Option<(<Self::Output as DeepView>::V, int)>;

    fn parse_next(&self, input: &mut Stream) -> (r: Result<Self::Output, XnbError>)
        requires
            self.wf(),
            old(input).wf(),
        ensures
            final(input).wf(),
            final(input)@.data == old(input)@.data,
            final(input)@.table == old(input)@.table,
            old(input)@.pos <= final(input)@.pos <= final(input)@.data.len(),
            match self.spec_parse(old(input)@) {
                Some((v, p)) => r is Ok && r->Ok_0.deep_view() == v && final(input)@.pos == p,
                None => r is Err,
            },
    ;
}

/// The registry: a closed, compiled-in set of content decoders, looked up
/// by identity and invoked by arena handle.  Resolution happens once per
/// table entry; the body then dispatches by index alone.
pub trait TypeReaderParserMaker {
    /// The type-erased value every registered decoder produces.
    type Value: DeepView;

    spec fn wf(&self) -> bool;

    /// Which arena handle, if any, the registry gives an identity.
    spec fn spec_resolve(&self, info: TypeReaderInfoV) -> Option<int>;

    /// What the decoder behind `handle` yields on a given stream: the
    /// decoded value's mathematical image and the position after it.
    spec fn spec_run(&self, handle: int, s: StreamV) -> Option<
        (<Self::Value as DeepView>::V, int),
    >;

    /// Look an identity up; `None` is not an error until dispatched to.
    fn make(&self, info: &TypeReaderInfo) -> (r: Option<usize>)
        requires
            self.wf(),
        ensures
            match r {
                Some(h) => self.spec_resolve(info@) == Some(h as int),
                None => self.spec_resolve(info@) is None,
            },
    ;

    /// Run the decoder behind a previously resolved handle.
    fn run(&self, handle: usize, input: &mut Stream) -> (r: Result<Self::Value, XnbError>)
        requires
            self.wf(),
            old(input).wf(),
        ensures
            final(input).wf(),
            final(input)@.data == old(input)@.data,
            final(input)@.table == old(input)@.table,
            old(input)@.pos <= final(input)@.pos <= final(input)@.data.len(),
            match self.spec_run(handle as int, old(input)@) {
                Some((v, p)) => r is Ok && r->Ok_0.deep_view() == v && final(input)@.pos == p,
                None => r is Err,
            },
    ;
}

/// A decoder whose output type itself carries a table identity.
pub trait TypeReader: TypeReaderParser where Self::Output: TypeReaderMeta {

}

impl<T: TypeReaderParser> TypeReader for T where T::Output: TypeReaderMeta {

}

/// What reading one `(name, version)` table entry from the bytes yields.
pub open spec fn spec_reader_info_at(s: Seq<u8>, pos: int) -> Option<(TypeReaderInfoV, int)> {
    match crate::types::spec_string_at(s, pos) {
        Some((name, p2)) => {
            if p2 + 4 <= s.len() {
                Some(
                    (
                        TypeReaderInfoV {
                            name,
                            version: crate::cursor::spec_le_u32(s, p2) as i32 as int,
                        },
                        p2 + 4,
                    ),
                )
            } else {
                None
            }
        },
        None => None,
    }
}

/// The error a failed table-entry read reports: the name string's own
/// failure, or the input ending inside the four version bytes.
pub open spec fn spec_reader_info_failure(s: Seq<u8>, pos: int) -> XnbError {
    match crate::types::spec_string_at(s, pos) {
        None => crate::types::spec_string_failure(s, pos),
        Some((name, p2)) => XnbError::UnexpectedEof { offset: p2 as usize },
    }
}

/// Read one `(name, version)` pair.
pub fn read_type_reader_info(cur: &mut Cursor) -> (r: Result<TypeReaderInfo, XnbError>)
    requires
        old(cur).wf(),
    ensures
        final(cur).wf(),
        final(cur).data() == old(cur).data(),
        old(cur).pos() <= final(cur).pos() <= final(cur).data().len(),
        match spec_reader_info_at(old(cur).data(), old(cur).pos()) {
            Some((info, end)) => r is Ok && r->Ok_0@ == info && final(cur).pos() == end,
            None => r is Err && r->Err_0 == spec_reader_info_failure(
                old(cur).data(),
                old(cur).pos(),
            ),
        },
{
    let name = read_string(cur)?;
    let version = match cur.read_i32_le() {
        Some(v) => v,
        None => {
            return Err(XnbError::UnexpectedEof { offset: cur.offset() });
        },
    };
    Ok(TypeReaderInfo { name, version })
}

/// What reading `n` table entries starting at `pos` yields.
pub open spec fn spec_reader_infos_at(s: Seq<u8>, pos: int, n: nat) -> Option<
    (Seq<TypeReaderInfoV>, int),
>
    decreases n,
{
    if n == 0 {
        Some((Seq::empty(), pos))
    } else {
        match spec_reader_info_at(s, pos) {
            Some((info, p2)) => {
                match spec_reader_infos_at(s, p2, (n - 1) as nat) {
                    Some((rest, end)) => Some((seq![info] + rest, end)),
                    None => None,
                }
            },
            None => None,
        }
    }
}

/// The error a failed run of table entries reports: the first failing
/// entry's own failure.
pub open spec fn spec_reader_infos_failure(s: Seq<u8>, pos: int, n: nat) -> XnbError
    decreases n,
{
    if n == 0 {
        XnbError::UnexpectedEof { offset: s.len() as usize }
    } else {
        match spec_reader_info_at(s, pos) {
            Some((info, p2)) => spec_reader_infos_failure(s, p2, (n - 1) as nat),
            None => spec_reader_info_failure(s, pos),
        }
    }
}

/// The resolved table for a sequence of declared identities: every entry
/// keeps its identity and takes whatever handle the registry gives it.
pub open spec fn spec_resolve_table<R: TypeReaderParserMaker>(
    reg: &R,
    infos: Seq<TypeReaderInfoV>,
) -> Seq<TypeReaderEntryV> {
    infos.map_values(|i: TypeReaderInfoV| TypeReaderEntryV { info: i, reader: reg.spec_resolve(i) })
}

/// Read the type-reader table: a varint count, then that many
/// `(name, version)` pairs, each resolved against the registry.
/// Duplicate identities are legal and resolved independently.
pub fn read_type_reader_table<R: TypeReaderParserMaker>(reg: &R, cur: &mut Cursor) -> (r: Result<
    Vec<TypeReaderEntry>,
    XnbError,
>)
    requires
        reg.wf(),
        old(cur).wf(),
    ensures
        final(cur).wf(),
        final(cur).data() == old(cur).data(),
        old(cur).pos() <= final(cur).pos() <= final(cur).data().len(),
        match spec_varint(old(cur).data(), old(cur).pos()) {
            Some((count, p1)) => {
                if count < 0x80000000 {
                    match spec_reader_infos_at(old(cur).data(), p1, count as nat) {
                        Some((infos, end)) => r is Ok && r->Ok_0@.map_values(
                            |e: TypeReaderEntry| e@,
                        ) == spec_resolve_table(reg, infos) && final(cur).pos() == end,
                        None => r is Err && r->Err_0 == spec_reader_infos_failure(
                            old(cur).data(),
                            p1,
                            count as nat,
                        ),
                    }
                } else {
                    r is Err && (r->Err_0 matches XnbError::NegativeCount { offset } && offset
                        == old(cur).pos())
                }
            },
            None => r is Err && r->Err_0 == crate::varint::spec_varint_failure(
                old(cur).data(),
                old(cur).pos(),
            ),
        },
{
    let ghost s = old(cur).data();
    let count = read_varint_count(cur)?;
    let ghost p1 = cur.pos();
    let mut entries: Vec<TypeReaderEntry> = Vec::new();
    let mut i: usize = 0;
    while i < count
        invariant
            s == old(cur).data(),
            reg.wf(),
            cur.wf(),
            cur.data() == s,
            i <= count,
            entries@.len() == i,
            old(cur).pos() <= p1,
            0 <= p1 <= cur.pos() <= s.len(),
            count < 0x80000000,
            spec_varint(s, old(cur).pos()) == Some((count as u32, p1)),
            spec_reader_infos_failure(s, p1, count as nat) == spec_reader_infos_failure(
                s,
                cur.pos(),
                (count - i) as nat,
            ),
            spec_reader_infos_at(s, p1, count as nat) matches Some((infos, end)) ==> {
                &&& spec_reader_infos_at(s, cur.pos(), (count - i) as nat) matches Some(
                    (rest, end2),
                )
                &&& infos == infos.subrange(0, i as int) + rest
                &&& end == end2
                &&& entries@.map_values(|e: TypeReaderEntry| e@) == spec_resolve_table(
                    reg,
                    infos.subrange(0, i as int),
                )
            },
            spec_reader_infos_at(s, cur.pos(), (count - i) as nat) is Some
                ==> spec_reader_infos_at(s, p1, count as nat) is Some,
        decreases count - i,
    {
        let ghost pos_before = cur.pos();
        let info = match read_type_reader_info(cur) {
            Ok(info) => info,
            Err(e) => {
                proof {
                    assert(spec_reader_infos_at(s, pos_before, (count - i) as nat) is None);
                }
                return Err(e);
            },
        };
        let ghost entries_old = entries@;
        let ghost info_v = info@;
        let reader = reg.make(&info);
        let ghost entry_v = TypeReaderEntryV { info: info_v, reader: reg.spec_resolve(info_v) };
        let entry = TypeReaderEntry { info, reader };
        let ghost pushed = entry;
        entries.push(entry);
        i = i + 1;
        proof {
            let n_left = (count - i + 1) as nat;
            let (first, p2) = spec_reader_info_at(s, pos_before)->0;
            assert(info_v == first);
            assert(entries@ == entries_old.push(pushed));
            assert(pushed@ == entry_v);
            assert(entries@.map_values(|e: TypeReaderEntry| e@) =~= entries_old.map_values(
                |e: TypeReaderEntry| e@,
            ).push(entry_v));
            if spec_reader_infos_at(s, p1, count as nat) is Some {
                let (infos, end) = spec_reader_infos_at(s, p1, count as nat)->0;
                let (rest, end2) = spec_reader_infos_at(s, pos_before, n_left)->0;
                let (rest2, end3) = spec_reader_infos_at(s, cur.pos(), (count - i) as nat)->0;
                assert(rest == seq![first] + rest2);
                assert(infos == infos.subrange(0, i - 1) + rest);
                assert(infos[i - 1] == (infos.subrange(0, i - 1) + rest)[i - 1]);
                assert(infos[i - 1] == first);
                assert(infos.subrange(0, i as int) =~= infos.subrange(0, i - 1).push(first));
                assert(spec_resolve_table(reg, infos.subrange(0, i as int)) =~= spec_resolve_table(
                    reg,
                    infos.subrange(0, i - 1),
                ).push(entry_v));
                assert(entries@.map_values(|e: TypeReaderEntry| e@) =~= spec_resolve_table(
                    reg,
                    infos.subrange(0, i as int),
                ));
                assert(infos =~= infos.subrange(0, i as int) + rest2);
            }
        }
    }
    proof {
        if let Some((infos, end)) = spec_reader_infos_at(s, p1, count as nat) {
            assert(infos.subrange(0, count as int) =~= infos);
        }
    }
    Ok(entries)
}

} // verus!
