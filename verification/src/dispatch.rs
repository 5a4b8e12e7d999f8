//! The two object-dispatch primitives.
//!
//! Every polymorphic value in the body opens with one varint id.  Id `0`
//! always means "no value", whatever the table holds.  Any other id `n`
//! addresses table entry `n - 1`: the type-erased read runs the registry
//! decoder that entry resolved to, while the statically-checked read
//! first compares the entry's identity against the expected one and then
//! runs a caller-supplied typed decoder.

use core::marker::PhantomData;
use vstd::prelude::*;
use crate::error::XnbError;
use crate::reader::{
    Stream, StreamV, TypeReaderInfo, TypeReaderInfoV, TypeReaderMeta, TypeReaderParser,
    TypeReaderParserMaker,
};
use crate::varint::{read_varint_count, spec_varint};

verus! {

/// A type-erased value: the registry's value type can absorb a decoded
/// `T`, and its mathematical image absorbs the image of `T` the same way.
pub trait ErasedValue<T: DeepView>: DeepView + Sized {
    /// How erasing a value shows in the mathematical image.
    spec fn spec_box(v: T::V) -> Self::V;

    fn box_value(v: T) -> (r: Self)
        ensures
            r.deep_view() == Self::spec_box(v.deep_view()),
    ;
}

/// Adapts a typed decoder into one that yields the registry's type-erased
/// value.
pub struct BoxingParser<P, O> {
    pub parser: P,
    pub _marker: PhantomData<O>,
}

impl<P, O> BoxingParser<P, O> {
    pub fn new(parser: P) -> (r: BoxingParser<P, O>)
        ensures
            r.parser == parser,
    {
        BoxingParser { parser, _marker: PhantomData }
    }
}

impl<P, O> TypeReaderParser for BoxingParser<P, O> where
    P: TypeReaderParser,
    O: ErasedValue<P::Output>,
 {
    type Output = O;

    open spec fn wf(&self) -> bool {
        self.parser.wf()
    }

    open spec fn spec_parse(&self, s: StreamV) -> Option<(O::V, int)> {
        match self.parser.spec_parse(s) {
            Some((v, p)) => Some((O::spec_box(v), p)),
            None => None,
        }
    }

    fn parse_next(&self, input: &mut Stream) -> (r: Result<O, XnbError>) {
        let inner = self.parser.parse_next(input)?;
        Ok(O::box_value(inner))
    }
}

/// What the type-erased read denotes, identity included: `None` stands
/// for a failed read, `Some((None, p))` for id `0`, and
/// `Some((Some((info, v)), p))` for a value decoded through the table
/// entry with identity `info`.
pub open spec fn spec_object_any_entry<R: TypeReaderParserMaker>(reg: &R, s: StreamV) -> Option<
    (Option<(TypeReaderInfoV, <R::Value as DeepView>::V)>, int),
> {
    match spec_varint(s.data, s.pos) {
        Some((id, p2)) => {
            if id == 0 {
                Some((None, p2))
            } else if id < 0x80000000 && id - 1 < s.table.len() {
                match s.table[id - 1].reader {
                    Some(h) => {
                        match reg.spec_run(h, s.at(p2)) {
                            Some((v, p3)) => Some((Some((s.table[id - 1].info, v)), p3)),
                            None => None,
                        }
                    },
                    None => None,
                }
            } else {
                None
            }
        },
        None => None,
    }
}

/// What the type-erased read denotes, the identity dropped.
pub open spec fn spec_object_any<R: TypeReaderParserMaker>(reg: &R, s: StreamV) -> Option<
    (Option<<R::Value as DeepView>::V>, int),
> {
    match spec_object_any_entry(reg, s) {
        Some((slot, p)) => Some(
            (
                match slot {
                    Some((info, v)) => Some(v),
                    None => None,
                },
                p,
            ),
        ),
        None => None,
    }
}

/// Law: an id of `0` always denotes "no value", in the type-erased read
/// and in shared-resource-reference position alike, whatever the table
/// holds — including an empty table.  (The statically-checked read's
/// specification carries the same `id == 0` branch.)
pub proof fn lemma_zero_id_no_value<R: TypeReaderParserMaker>(reg: &R, s: StreamV)
    requires
        ({
            spec_varint(s.data, s.pos) matches Some((id, p)) && id == 0
        }),
    ensures
        ({
            let (id, p) = spec_varint(s.data, s.pos)->0;
            &&& spec_object_any(reg, s) == Some(
                (None::<<R::Value as DeepView>::V>, p),
            )
            &&& spec_object_any_entry(reg, s) == Some(
                (None::<(TypeReaderInfoV, <R::Value as DeepView>::V)>, p),
            )
            &&& spec_shared_resource_ref_at(s.data, s.pos) == Some((None::<int>, p))
        }),
{
}

/// Read one polymorphic value type-erased, and also hand back the
/// identity of the table entry it decoded through; the shared-resource
/// table stores that identity beside each slot so a typed resolution can
/// check it later.  Error cases are pinned exactly as in [`object_any`].
pub fn object_any_entry<R: TypeReaderParserMaker>(reg: &R, input: &mut Stream) -> (r: Result<
    Option<(TypeReaderInfo, R::Value)>,
    XnbError,
>)
    requires
        reg.wf(),
        old(input).wf(),
    ensures
        final(input).wf(),
        final(input)@.data == old(input)@.data,
        final(input)@.table == old(input)@.table,
        old(input)@.pos <= final(input)@.pos <= final(input)@.data.len(),
        match spec_object_any_entry(reg, old(input)@) {
            Some((slot, p)) => {
                &&& r is Ok
                &&& final(input)@.pos == p
                &&& match slot {
                    Some((info, v)) => r->Ok_0 matches Some(pair) && pair.0@ == info
                        && pair.1.deep_view() == v,
                    None => r->Ok_0 is None,
                }
            },
            None => r is Err,
        },
        match spec_varint(old(input)@.data, old(input)@.pos) {
            Some((id, p2)) => ({
                let table = old(input)@.table;
                let out_of_range = 1 <= id < 0x80000000 && id - 1 >= table.len();
                let unresolved = 1 <= id < 0x80000000 && id - 1 < table.len() && table[id
                    - 1].reader is None;
                &&& out_of_range ==> (r->Err_0 matches XnbError::TypeIdOutOfRange {
                    offset,
                    type_id,
                    type_count,
                } && type_id == id && type_count == table.len() && final(input)@.pos == p2)
                &&& unresolved ==> (r->Err_0 matches XnbError::NoTypeReader {
                    offset,
                    name,
                    version,
                } && name@ == table[id - 1].info.name && version as int == table[id
                    - 1].info.version && final(input)@.pos == p2)
            }),
            None => true,
        },
{
    let id = read_varint_count(&mut input.input)?;
    if id == 0 {
        return Ok(None);
    }
    let index = id - 1;
    let table_len = input.state.type_readers.len();
    if index >= table_len {
        return Err(
            XnbError::TypeIdOutOfRange {
                offset: input.input.offset(),
                type_id: id,
                type_count: table_len,
            },
        );
    }
    let has_reader = input.state.type_readers[index].reader;
    match has_reader {
        Some(handle) => {
            let info = input.state.type_readers[index].info.clone();
            proof {
                assert(old(input)@.table[id - 1].reader == Some(handle as int));
                assert(info@ == old(input)@.table[id - 1].info);
            }
            let value = reg.run(handle, input)?;
            Ok(Some((info, value)))
        },
        None => {
            let entry = &input.state.type_readers[index];
            Err(
                XnbError::NoTypeReader {
                    offset: input.input.offset(),
                    name: entry.info.name.clone(),
                    version: entry.info.version,
                },
            )
        },
    }
}

/// Read one polymorphic value type-erased: a varint id, then, unless the
/// id is `0`, the registry decoder the addressed table entry resolved to.
///
/// Beyond the functional specification, the error cases are pinned: an id
/// past the table is [`XnbError::TypeIdOutOfRange`] carrying the id and
/// the actual table length, and an unresolved entry is
/// [`XnbError::NoTypeReader`] naming the entry's identity.
pub fn object_any<R: TypeReaderParserMaker>(reg: &R, input: &mut Stream) -> (r: Result<
    Option<R::Value>,
    XnbError,
>)
    requires
        reg.wf(),
        old(input).wf(),
    ensures
        final(input).wf(),
        final(input)@.data == old(input)@.data,
        final(input)@.table == old(input)@.table,
        old(input)@.pos <= final(input)@.pos <= final(input)@.data.len(),
        match spec_object_any(reg, old(input)@) {
            Some((v, p)) => r is Ok && r->Ok_0.deep_view() == v && final(input)@.pos == p,
            None => r is Err,
        },
        match spec_varint(old(input)@.data, old(input)@.pos) {
            Some((id, p2)) => ({
                let table = old(input)@.table;
                let out_of_range = 1 <= id < 0x80000000 && id - 1 >= table.len();
                let unresolved = 1 <= id < 0x80000000 && id - 1 < table.len() && table[id
                    - 1].reader is None;
                &&& out_of_range ==> (r->Err_0 matches XnbError::TypeIdOutOfRange {
                    offset,
                    type_id,
                    type_count,
                } && type_id == id && type_count == table.len() && final(input)@.pos == p2)
                &&& unresolved ==> (r->Err_0 matches XnbError::NoTypeReader {
                    offset,
                    name,
                    version,
                } && name@ == table[id - 1].info.name && version as int == table[id
                    - 1].info.version && final(input)@.pos == p2)
            }),
            None => true,
        },
{
    match object_any_entry(reg, input) {
        Ok(Some((_info, value))) => Ok(Some(value)),
        Ok(None) => Ok(None),
        Err(e) => Err(e),
    }
}

/// The statically-checked read: a varint id, an identity comparison
/// between the addressed table entry and the expected type, then the
/// caller-supplied typed decoder for that exact slot.
pub struct ObjectParser<Type, TypeReader> {
    pub reader: TypeReader,
    pub _marker: PhantomData<Type>,
}

/// Build the statically-checked reader for an expected content type.
pub fn object<O, P>(reader: P) -> (r: ObjectParser<O, P>)
    ensures
        r.reader == reader,
{
    ObjectParser { reader, _marker: PhantomData }
}

impl<Type, TR> TypeReaderParser for ObjectParser<Type, TR> where
    Type: TypeReaderMeta + DeepView,
    TR: TypeReaderParser<Output = Type>,
 {
    type Output = Option<Type>;

    open spec fn wf(&self) -> bool {
        self.reader.wf()
    }

    open spec fn spec_parse(&self, s: StreamV) -> Option<(Option<Type::V>, int)> {
        match spec_varint(s.data, s.pos) {
            Some((id, p2)) => {
                if id == 0 {
                    Some((None, p2))
                } else if id < 0x80000000 && id - 1 < s.table.len() {
                    if s.table[id - 1].info.name == Type::spec_name() && s.table[id
                        - 1].info.version == Type::spec_version() {
                        match self.reader.spec_parse(s.at(p2)) {
                            Some((v, p3)) => Some((Some(v), p3)),
                            None => None,
                        }
                    } else {
                        None
                    }
                } else {
                    None
                }
            },
            None => None,
        }
    }

    /// Beyond the functional specification: an id past the table is
    /// [`XnbError::TypeIdOutOfRange`] with the actual table length, and an
    /// identity mismatch is [`XnbError::WrongType`] naming both the
    /// expected and the found identity, with no bytes consumed beyond the
    /// checked id.
    fn parse_next(&self, input: &mut Stream) -> (r: Result<Option<Type>, XnbError>)
        ensures
            match spec_varint(old(input)@.data, old(input)@.pos) {
                Some((id, p2)) => ({
                    let table = old(input)@.table;
                    let out_of_range = 1 <= id < 0x80000000 && id - 1 >= table.len();
                    let mismatch = 1 <= id < 0x80000000 && id - 1 < table.len() && !(table[id
                        - 1].info.name == Type::spec_name() && table[id - 1].info.version
                        == Type::spec_version());
                    &&& out_of_range ==> (r->Err_0 matches XnbError::TypeIdOutOfRange {
                        offset,
                        type_id,
                        type_count,
                    } && type_id == id && type_count == table.len() && final(input)@.pos == p2)
                    &&& mismatch ==> (r->Err_0 matches XnbError::WrongType {
                        offset,
                        expected,
                        found,
                    } && expected@.name == Type::spec_name() && expected@.version
                        == Type::spec_version() && found@ == table[id - 1].info
                        && final(input)@.pos == p2)
                }),
                None => true,
            },
    {
        let id = read_varint_count(&mut input.input)?;
        if id == 0 {
            return Ok(None);
        }
        let index = id - 1;
        let table_len = input.state.type_readers.len();
        if index >= table_len {
            return Err(
                XnbError::TypeIdOutOfRange {
                    offset: input.input.offset(),
                    type_id: id,
                    type_count: table_len,
                },
            );
        }
        let expected = TypeReaderInfo { name: Type::name(), version: Type::version() };
        let found = &input.state.type_readers[index].info;
        if !(found.name == expected.name && found.version == expected.version) {
            let found_clone = found.clone();
            return Err(
                XnbError::WrongType {
                    offset: input.input.offset(),
                    expected,
                    found: found_clone,
                },
            );
        }
        match self.reader.parse_next(input) {
            Ok(v) => Ok(Some(v)),
            Err(e) => Err(e),
        }
    }
}

/// A typed handle into the shared-resource table: an inert index with no
/// resolving capability of its own.  Equal exactly when the indices are.
pub struct SharedResourceReference<T> {
    pub(crate) index: usize,
    pub(crate) _marker: PhantomData<T>,
}

impl<T> SharedResourceReference<T> {
    /// The slot this handle addresses.
    pub closed spec fn spec_index(&self) -> int {
        self.index as int
    }

    pub fn index(&self) -> (r: usize)
        ensures
            r == self.spec_index(),
    {
        self.index
    }
}

impl<T> PartialEq for SharedResourceReference<T> {
    fn eq(&self, other: &Self) -> (r: bool) {
        self.index == other.index
    }
}

impl<T> vstd::std_specs::cmp::PartialEqSpecImpl for SharedResourceReference<T> {
    open spec fn obeys_eq_spec() -> bool {
        true
    }

    open spec fn eq_spec(&self, other: &Self) -> bool {
        self.spec_index() == other.spec_index()
    }
}

impl<T> Eq for SharedResourceReference<T> {

}

/// What reading a shared-resource reference denotes: id `0` is "no
/// reference"; id `n` is a handle on slot `n - 1`.
pub open spec fn spec_shared_resource_ref_at(s: Seq<u8>, pos: int) -> Option<(Option<int>, int)> {
    match spec_varint(s, pos) {
        Some((id, p2)) => {
            if id == 0 {
                Some((None, p2))
            } else if id < 0x80000000 {
                Some((Some(id - 1), p2))
            } else {
                None
            }
        },
        None => None,
    }
}

/// Read a shared-resource reference: one varint id, nothing else.  The
/// handle is inert; it is bounds-checked only when resolved against the
/// finished bundle.
pub fn shared_resource_ref<T>(input: &mut Stream) -> (r: Result<
    Option<SharedResourceReference<T>>,
    XnbError,
>)
    requires
        old(input).wf(),
    ensures
        final(input).wf(),
        final(input)@.data == old(input)@.data,
        final(input)@.table == old(input)@.table,
        old(input)@.pos <= final(input)@.pos <= final(input)@.data.len(),
        match spec_shared_resource_ref_at(old(input)@.data, old(input)@.pos) {
            Some((idx, p)) => {
                &&& r is Ok
                &&& final(input)@.pos == p
                &&& match idx {
                    Some(i) => r->Ok_0 matches Some(h) && h.spec_index() == i,
                    None => r->Ok_0 is None,
                }
            },
            None => r is Err,
        },
{
    let id = read_varint_count(&mut input.input)?;
    if id == 0 {
        return Ok(None);
    }
    Ok(Some(SharedResourceReference { index: id - 1, _marker: PhantomData }))
}

} // verus!
