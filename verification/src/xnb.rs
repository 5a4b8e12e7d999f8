//! The decoded bundle and the orchestrator.
//!
//! One parse call runs strictly in sequence: header, decompression or
//! passthrough, a fresh cursor over the body, the type-reader table, the
//! caller-supplied primary decoder, the shared-resource table, and a
//! leftover-bytes check.  Every phase after the header depends on exact
//! byte alignment produced by the one before, so any structural failure
//! aborts the whole parse; soft anomalies are collected beside the
//! result instead.

use vstd::prelude::*;
use crate::cursor::Cursor;
use crate::dispatch::{SharedResourceReference, object_any_entry, spec_object_any_entry};
use crate::error::{Diagnostic, XnbError};
use crate::header::{
    FLAG_COMPRESSED, log_header_diagnostics, parse_header, spec_header_at,
    spec_header_diagnostics, spec_magic_ok,
};
use crate::lzx::{decompress, spec_frames, spec_frames_failure};
use crate::reader::{
    State, Stream, StreamV, TypeReaderInfo, TypeReaderInfoV, TypeReaderMeta, TypeReaderParser,
    TypeReaderParserMaker, read_type_reader_table, spec_reader_infos_at,
    spec_reader_infos_failure, spec_resolve_table,
};
use crate::varint::{read_varint_count, spec_varint};

verus! {

/// Why resolving a [`SharedResourceReference`] against a bundle failed.
#[derive(Clone, Copy, PartialEq, Eq, Structural, Debug)]
pub enum SharedResourceAccessError {
    /// The slot exists but was decoded under another identity.
    WrongType,
    /// The index is past the (possibly truncated) list, or the slot was
    /// never decoded.
    OutOfRangeOrUnparsed,
}

/// One decoded shared-resource slot: the type-erased value, and the
/// identity of the table entry it was decoded through.
#[derive(Debug)]
pub struct SharedResource<V> {
    pub info: TypeReaderInfo,
    pub value: V,
}

/// Whether an exec slot is exactly what the model says: both absent, or
/// both present with the same identity and value image.
pub open spec fn slot_corresponds<V: DeepView>(
    slot: Option<SharedResource<V>>,
    model: Option<(TypeReaderInfoV, V::V)>,
) -> bool {
    match (slot, model) {
        (Some(sr), Some(m)) => sr.info@ == m.0 && sr.value.deep_view() == m.1,
        (None, None) => true,
        _ => false,
    }
}

/// What decoding `n` shared-resource slots in order yields: the decoded
/// slots, the position after the last success, and the index of the
/// first failing slot if one fails.
pub open spec fn spec_shared_walk<R: TypeReaderParserMaker>(reg: &R, s: StreamV, n: nat) -> (
    Seq<Option<(TypeReaderInfoV, <R::Value as DeepView>::V)>>,
    int,
    Option<nat>,
)
    decreases n,
{
    if n == 0 {
        (Seq::empty(), s.pos, None)
    } else {
        match spec_object_any_entry(reg, s) {
            Some((slot, p)) => {
                let rec = spec_shared_walk(reg, s.at(p), (n - 1) as nat);
                (
                    seq![slot] + rec.0,
                    rec.1,
                    match rec.2 {
                        Some(j) => Some((j + 1) as nat),
                        None => None,
                    },
                )
            },
            None => (Seq::empty(), s.pos, Some(0nat)),
        }
    }
}

/// Read the shared-resource table: `n` type-erased objects, strictly in
/// table order.  A slot that fails to decode does not abort the parse:
/// the slots before it stay, the rest are abandoned, and one diagnostic
/// says how many were skipped.
pub fn read_shared_resources<R: TypeReaderParserMaker>(
    reg: &R,
    input: &mut Stream,
    n: usize,
    diags: &mut Vec<Diagnostic>,
) -> (r: Vec<Option<SharedResource<R::Value>>>)
    requires
        reg.wf(),
        old(input).wf(),
    ensures
        final(input).wf(),
        final(input)@.data == old(input)@.data,
        final(input)@.table == old(input)@.table,
        old(input)@.pos <= final(input)@.pos <= final(input)@.data.len(),
        ({
            let (slots, end, fail) = spec_shared_walk(reg, old(input)@, n as nat);
            &&& r@.len() == slots.len()
            &&& forall|i: int|
                0 <= i < slots.len() ==> slot_corresponds(#[trigger] r@[i], slots[i])
            &&& match fail {
                None => r@.len() == n && final(input)@.pos == end && final(diags)@ == old(
                    diags,
                )@,
                Some(k) => k <= n && r@.len() == k && final(diags)@ == old(diags)@.push(
                    Diagnostic::SharedResourcesSkipped { skipped: (n - k) as usize },
                ),
            }
        }),
{
    let ghost walk = spec_shared_walk(reg, old(input)@, n as nat);
    let mut out: Vec<Option<SharedResource<R::Value>>> = Vec::new();
    let mut i: usize = 0;
    while i < n
        invariant
            reg.wf(),
            input.wf(),
            walk == spec_shared_walk(reg, old(input)@, n as nat),
            input@.data == old(input)@.data,
            input@.table == old(input)@.table,
            old(input)@.pos <= input@.pos <= input@.data.len(),
            diags@ == old(diags)@,
            i <= n,
            i <= walk.0.len(),
            out@.len() == i,
            forall|j: int| 0 <= j < i ==> slot_corresponds(#[trigger] out@[j], walk.0[j]),
            ({
                let rec = spec_shared_walk(reg, input@, (n - i) as nat);
                &&& walk.0 == walk.0.subrange(0, i as int) + rec.0
                &&& walk.1 == rec.1
                &&& walk.2 == match rec.2 {
                    Some(j) => Some((j + i) as nat),
                    None => None::<nat>,
                }
            }),
        decreases n - i,
    {
        let ghost view_before = input@;
        let ghost rec_before = spec_shared_walk(reg, view_before, (n - i) as nat);
        match object_any_entry(reg, input) {
            Ok(slot) => {
                let ghost slot_model = spec_object_any_entry(reg, view_before)->0;
                let ghost rec_after = spec_shared_walk(reg, input@, (n - i - 1) as nat);
                let exec_slot = match slot {
                    Some((info, value)) => Some(SharedResource { info, value }),
                    None => None,
                };
                let ghost pushed = exec_slot;
                out.push(exec_slot);
                i = i + 1;
                proof {
                    assert(view_before.at(slot_model.1) == input@);
                    assert(rec_before.0 == seq![slot_model.0] + rec_after.0);
                    assert(rec_before.0.len() >= 1);
                    assert(walk.0 == walk.0.subrange(0, i - 1) + rec_before.0);
                    assert(walk.0.len() >= i);
                    assert(walk.0.subrange(0, i - 1).len() == i - 1);
                    assert(walk.0[i - 1] == (walk.0.subrange(0, i - 1) + rec_before.0)[i - 1]);
                    assert((walk.0.subrange(0, i - 1) + rec_before.0)[i - 1] == rec_before.0[0]);
                    assert(rec_before.0[0] == (seq![slot_model.0] + rec_after.0)[0]);
                    assert((seq![slot_model.0] + rec_after.0)[0] == slot_model.0);
                    assert(walk.0[i - 1] == slot_model.0);
                    assert(slot_corresponds(pushed, slot_model.0));
                    assert(out@ == out@.subrange(0, i - 1).push(pushed));
                    assert(walk.0.subrange(0, i as int) =~= walk.0.subrange(0, i - 1).push(
                        slot_model.0,
                    ));
                    assert(walk.0 =~= walk.0.subrange(0, i as int) + rec_after.0);
                }
            },
            Err(_) => {
                // This slot is unrecoverable: keep what was decoded, skip
                // the rest of the table, and log how many were abandoned.
                proof {
                    assert(spec_object_any_entry(reg, view_before) is None);
                    assert(rec_before.2 == Some(0nat));
                    assert(walk.2 == Some(i as nat));
                    assert(walk.0 =~= walk.0.subrange(0, i as int));
                }
                diags.push(Diagnostic::SharedResourcesSkipped { skipped: n - i });
                return out;
            },
        }
    }
    proof {
        let rec = spec_shared_walk(reg, input@, 0);
        assert(walk.0 =~= walk.0.subrange(0, n as int));
    }
    out
}

/// The decoded bundle: the primary value, the (possibly truncated)
/// shared-resource list, and the soft anomalies collected along the way.
#[derive(Debug)]
pub struct XnbAsset<T, V> {
    primary: T,
    shared_resources: Vec<Option<SharedResource<V>>>,
    diagnostics: Vec<Diagnostic>,
}

/// Resolution of shared-resource handles against a finished bundle.
pub trait SharedResources<V> {
    /// Look a typed handle up: bounds-check the index, then check that
    /// the slot was decoded under the identity the caller's type carries.
    fn shared_resource<R: TypeReaderMeta>(
        &self,
        reference: &SharedResourceReference<R>,
    ) -> Result<Option<&V>, SharedResourceAccessError>;

    /// Look a handle up without any identity check.
    fn shared_resource_any<R>(
        &self,
        reference: &SharedResourceReference<R>,
    ) -> Result<Option<&V>, SharedResourceAccessError>;
}

impl<T, V> XnbAsset<T, V> {
    /// The primary decoded value.
    pub closed spec fn spec_primary(&self) -> T {
        self.primary
    }

    /// The shared-resource slots, in table order.
    pub closed spec fn spec_shared(&self) -> Seq<Option<SharedResource<V>>> {
        self.shared_resources@
    }

    /// The soft anomalies, in the order they were found.
    pub closed spec fn spec_diagnostics(&self) -> Seq<Diagnostic> {
        self.diagnostics@
    }

    pub fn inner(&self) -> (r: &T)
        ensures
            *r == self.spec_primary(),
    {
        &self.primary
    }

    pub fn into_inner(self) -> (r: T)
        ensures
            r == self.spec_primary(),
    {
        self.primary
    }

    pub fn diagnostics(&self) -> (r: &Vec<Diagnostic>)
        ensures
            r@ == self.spec_diagnostics(),
    {
        &self.diagnostics
    }

    pub fn shared_resource_count(&self) -> (r: usize)
        ensures
            r == self.spec_shared().len(),
    {
        self.shared_resources.len()
    }
}

impl<T, V> SharedResources<V> for XnbAsset<T, V> {
    fn shared_resource<R: TypeReaderMeta>(
        &self,
        reference: &SharedResourceReference<R>,
    ) -> (r: Result<Option<&V>, SharedResourceAccessError>)
        ensures
            ({
                let i = reference.spec_index();
                let slots = self.spec_shared();
                if 0 <= i < slots.len() {
                    match slots[i] {
                        Some(sr) => {
                            if sr.info@.name == R::spec_name() && sr.info@.version
                                == R::spec_version() {
                                r matches Ok(Some(v)) && *v == sr.value
                            } else {
                                r is Err && r->Err_0 == SharedResourceAccessError::WrongType
                            }
                        },
                        None => r matches Ok(o) && o is None,
                    }
                } else {
                    r is Err && r->Err_0 == SharedResourceAccessError::OutOfRangeOrUnparsed
                }
            }),
    {
        let index = reference.index();
        if index >= self.shared_resources.len() {
            return Err(SharedResourceAccessError::OutOfRangeOrUnparsed);
        }
        match &self.shared_resources[index] {
            Some(sr) => {
                let expected_name = R::name();
                if sr.info.name == expected_name && sr.info.version == R::version() {
                    Ok(Some(&sr.value))
                } else {
                    Err(SharedResourceAccessError::WrongType)
                }
            },
            None => Ok(None),
        }
    }

    fn shared_resource_any<R>(
        &self,
        reference: &SharedResourceReference<R>,
    ) -> (r: Result<Option<&V>, SharedResourceAccessError>)
        ensures
            ({
                let i = reference.spec_index();
                let slots = self.spec_shared();
                if 0 <= i < slots.len() {
                    match slots[i] {
                        Some(sr) => r matches Ok(Some(v)) && *v == sr.value,
                        None => r matches Ok(o) && o is None,
                    }
                } else {
                    r is Err && r->Err_0 == SharedResourceAccessError::OutOfRangeOrUnparsed
                }
            }),
    {
        let index = reference.index();
        if index >= self.shared_resources.len() {
            return Err(SharedResourceAccessError::OutOfRangeOrUnparsed);
        }
        match &self.shared_resources[index] {
            Some(sr) => Ok(Some(&sr.value)),
            None => Ok(None),
        }
    }
}

/// A bundle with no shared resources at all: every lookup fails as
/// out-of-range.
#[derive(Default)]
pub struct EmptySharedResources;

impl<V> SharedResources<V> for EmptySharedResources {
    fn shared_resource<R: TypeReaderMeta>(
        &self,
        reference: &SharedResourceReference<R>,
    ) -> (r: Result<Option<&V>, SharedResourceAccessError>)
        ensures
            ({
                let checked: Result<Option<&V>, SharedResourceAccessError> = r;
                checked is Err && checked->Err_0
                    == SharedResourceAccessError::OutOfRangeOrUnparsed
            }),
    {
        let empty: Result<Option<&V>, SharedResourceAccessError> = Err(
            SharedResourceAccessError::OutOfRangeOrUnparsed,
        );
        empty
    }

    fn shared_resource_any<R>(
        &self,
        reference: &SharedResourceReference<R>,
    ) -> (r: Result<Option<&V>, SharedResourceAccessError>)
        ensures
            ({
                let checked: Result<Option<&V>, SharedResourceAccessError> = r;
                checked is Err && checked->Err_0
                    == SharedResourceAccessError::OutOfRangeOrUnparsed
            }),
    {
        let empty: Result<Option<&V>, SharedResourceAccessError> = Err(
            SharedResourceAccessError::OutOfRangeOrUnparsed,
        );
        empty
    }
}

/// What one whole body (everything after the header, decompressed if
/// need be) decodes to.
pub ghost struct DecodedModel<PV, VV> {
    /// The primary value's image.
    pub primary: PV,
    /// The shared slots that were decoded.
    pub slots: Seq<Option<(TypeReaderInfoV, VV)>>,
    /// The index of the first shared slot that failed, if one did.
    pub failed: Option<nat>,
    /// The declared number of shared slots.
    pub shared_total: nat,
    /// The position after the shared-resource table, on the all-decoded
    /// path.
    pub end: int,
}

/// The body grammar: a varint table count, that many `(name, version)`
/// pairs, a varint shared-resource count, the primary object, then the
/// shared slots.  `None` is a structural failure of anything but a
/// shared slot.
pub open spec fn spec_decode_body<R: TypeReaderParserMaker, P: TypeReaderParser>(
    reg: &R,
    primary: &P,
    body: Seq<u8>,
) -> Option<DecodedModel<<P::Output as DeepView>::V, <R::Value as DeepView>::V>> {
    match spec_varint(body, 0) {
        Some((count, p1)) => {
            if count < 0x80000000 {
                match spec_reader_infos_at(body, p1, count as nat) {
                    Some((infos, p2)) => {
                        match spec_varint(body, p2) {
                            Some((shared_n, p3)) => {
                                if shared_n < 0x80000000 {
                                    let sv = StreamV {
                                        data: body,
                                        pos: p3,
                                        table: spec_resolve_table(reg, infos),
                                    };
                                    match primary.spec_parse(sv) {
                                        Some((pv, p4)) => {
                                            let walk = spec_shared_walk(
                                                reg,
                                                sv.at(p4),
                                                shared_n as nat,
                                            );
                                            Some(
                                                DecodedModel {
                                                    primary: pv,
                                                    slots: walk.0,
                                                    failed: walk.2,
                                                    shared_total: shared_n as nat,
                                                    end: walk.1,
                                                },
                                            )
                                        },
                                        None => None,
                                    }
                                } else {
                                    None
                                }
                            },
                            None => None,
                        }
                    },
                    None => None,
                }
            } else {
                None
            }
        },
        None => None,
    }
}

/// The error a structural failure of the body's own grammar reports:
/// the table count, the table entries, and the shared-resource count, in
/// reading order.  `None` when those phases all parse; a failure of the
/// caller-supplied primary decoder is then the decoder's own error.
pub open spec fn spec_body_failure(body: Seq<u8>) -> Option<XnbError> {
    match spec_varint(body, 0) {
        None => Some(crate::varint::spec_varint_failure(body, 0)),
        Some((count, p1)) => {
            if count >= 0x80000000 {
                Some(XnbError::NegativeCount { offset: 0 })
            } else {
                match spec_reader_infos_at(body, p1, count as nat) {
                    None => Some(spec_reader_infos_failure(body, p1, count as nat)),
                    Some((infos, p2)) => {
                        match spec_varint(body, p2) {
                            None => Some(crate::varint::spec_varint_failure(body, p2)),
                            Some((shared_n, p3)) => {
                                if shared_n >= 0x80000000 {
                                    Some(XnbError::NegativeCount { offset: p2 as usize })
                                } else {
                                    None
                                }
                            },
                        }
                    },
                }
            }
        },
    }
}

/// The leftover-bytes diagnostic for `c` unused bytes: present exactly
/// when `c` is not zero.
pub open spec fn spec_trailing(c: int) -> Seq<Diagnostic> {
    if c > 0 {
        seq![Diagnostic::TrailingBytes { count: c as usize }]
    } else {
        Seq::empty()
    }
}

/// Whether a decoded bundle is exactly what the body model says: the
/// primary value, every shared slot, and the diagnostic log (the header
/// anomalies, then a skipped-slots entry if a shared slot failed, then
/// the leftover-bytes entry if bytes remained).
pub open spec fn spec_asset_matches<T: DeepView, V: DeepView>(
    asset: XnbAsset<T, V>,
    m: DecodedModel<T::V, V::V>,
    hdr_diags: Seq<Diagnostic>,
    body_len: int,
) -> bool {
    &&& asset.spec_primary().deep_view() == m.primary
    &&& asset.spec_shared().len() == m.slots.len()
    &&& forall|i: int|
        0 <= i < m.slots.len() ==> slot_corresponds(#[trigger] asset.spec_shared()[i], m.slots[i])
    &&& match m.failed {
        None => asset.spec_shared().len() == m.shared_total && asset.spec_diagnostics()
            == hdr_diags + spec_trailing(body_len - m.end),
        Some(k) => asset.spec_shared().len() == k && (exists|c: int|
            asset.spec_diagnostics() == hdr_diags + seq![
                Diagnostic::SharedResourcesSkipped { skipped: (m.shared_total - k) as usize },
            ] + spec_trailing(c)),
    }
}

/// Decode one whole document: header, body expansion, type-reader table,
/// primary object, shared resources, leftover check.
///
/// The whole outcome is a function of the input bytes: the primary value,
/// every shared slot, and the diagnostic log are pinned by
/// [`spec_decode_body`] over the body — the input after the header for an
/// uncompressed document, the frame expansion [`spec_frames`] gives for a
/// compressed one.  That is also what makes decoding deterministic.
///
/// On compressed documents the expansion runs through the outside
/// sliding-window decoder, and a crafted block can abort inside it
/// instead of returning (see [`crate::lzx::decompress`]); the no-panic
/// guarantee of the crate's own verified code does not extend over that
/// one call.
pub fn parse<'i, R: TypeReaderParserMaker, P: TypeReaderParser>(
    bytes: &'i [u8],
    registry: &R,
    primary: P,
) -> (r: Result<XnbAsset<P::Output, R::Value>, XnbError>)
    requires
        registry.wf(),
        primary.wf(),
    ensures
        match spec_header_at(bytes@, 0) {
            None => {
                &&& r is Err
                &&& (3 <= bytes@.len() && !spec_magic_ok(bytes@, 0)) ==> (r->Err_0
                    matches XnbError::BadMagic { offset } && offset == 0)
                &&& spec_magic_ok(bytes@, 0) ==> r->Err_0 is UnexpectedEof
            },
            Some(h) => {
                &&& (h.flags & FLAG_COMPRESSED == 0) ==> match spec_decode_body(
                    registry,
                    &primary,
                    bytes@.skip(13),
                ) {
                    Some(m) => r is Ok && spec_asset_matches(
                        r->Ok_0,
                        m,
                        spec_header_diagnostics(h),
                        bytes@.len() - 13,
                    ),
                    None => r is Err && (spec_body_failure(bytes@.skip(13)) matches Some(e)
                        ==> r->Err_0 == e),
                }
                &&& (h.flags & FLAG_COMPRESSED != 0) ==> {
                    if 13 + 4 <= bytes@.len() {
                        if crate::cursor::spec_le_u32(bytes@, 13)
                            <= crate::lzx::MAX_DECOMPRESSED_SIZE {
                            match spec_frames(
                                bytes@,
                                17,
                                Seq::empty(),
                                Seq::empty(),
                                crate::cursor::spec_le_u32(bytes@, 13) as nat,
                            ) {
                                Some(body) => match spec_decode_body(registry, &primary, body) {
                                    Some(m) => r is Ok && spec_asset_matches(
                                        r->Ok_0,
                                        m,
                                        spec_header_diagnostics(h),
                                        body.len() as int,
                                    ),
                                    None => r is Err && (spec_body_failure(body) matches Some(
                                        e,
                                    ) ==> r->Err_0 == e),
                                },
                                None => r is Err && r->Err_0 == spec_frames_failure(
                                    bytes@,
                                    17,
                                    Seq::empty(),
                                    Seq::empty(),
                                    crate::cursor::spec_le_u32(bytes@, 13) as nat,
                                ),
                            }
                        } else {
                            r is Err && r->Err_0 is SizeTooLarge
                        }
                    } else {
                        r is Err && r->Err_0 is UnexpectedEof
                    }
                }
            },
        },
{
    let mut cur = Cursor::new(bytes);
    let header = parse_header(&mut cur)?;
    let mut diags: Vec<Diagnostic> = Vec::new();
    log_header_diagnostics(&header, &mut diags);
    let body: Vec<u8> = if header.flags & FLAG_COMPRESSED != 0 {
        decompress(&mut cur)?
    } else {
        cur.rest()
    };
    proof {
        if header.flags & FLAG_COMPRESSED == 0 {
            assert(body@ =~= bytes@.skip(13));
        }
    }
    let mut bcur = Cursor::new(body.as_slice());
    let entries = read_type_reader_table(registry, &mut bcur)?;
    let shared_total = read_varint_count(&mut bcur)?;
    let mut stream = Stream { input: bcur, state: State { type_readers: entries } };
    let primary_value = primary.parse_next(&mut stream)?;
    let shared_resources = read_shared_resources(registry, &mut stream, shared_total, &mut diags);
    let remaining = stream.input.remaining();
    if remaining > 0 {
        diags.push(Diagnostic::TrailingBytes { count: remaining });
    }
    proof {
        if header.flags & FLAG_COMPRESSED == 0 {
            assert(spec_decode_body(registry, &primary, bytes@.skip(13)) == spec_decode_body(
                registry,
                &primary,
                body@,
            ));
        }
        let m = spec_decode_body(registry, &primary, body@);
        assert(m is Some);
        let model = m->0;
        let h = spec_header_at(bytes@, 0)->0;
        let hdr = spec_header_diagnostics(h);
        if model.failed is None {
            assert(remaining == body@.len() - model.end);
            if remaining > 0 {
                assert(diags@ =~= hdr + spec_trailing(remaining as int));
            } else {
                assert(diags@ =~= hdr + spec_trailing(0));
            }
        }
        if model.failed is Some {
            let k = model.failed->0;
            let skip_seq = seq![
                Diagnostic::SharedResourcesSkipped {
                    skipped: (model.shared_total - k) as usize,
                },
            ];
            if remaining > 0 {
                assert(diags@ =~= hdr + skip_seq + spec_trailing(remaining as int));
            } else {
                assert(diags@ =~= hdr + skip_seq + spec_trailing(0));
            }
        }
    }
    Ok(XnbAsset { primary: primary_value, shared_resources, diagnostics: diags })
}

/// What decoding `n` list items in a row yields.
pub open spec fn spec_list_items<P: TypeReaderParser>(parser: &P, s: StreamV, n: nat) -> Option<
    (Seq<<P::Output as DeepView>::V>, int),
>
    decreases n,
{
    if n == 0 {
        Some((Seq::empty(), s.pos))
    } else {
        match parser.spec_parse(s) {
            Some((v, p)) => {
                match spec_list_items(parser, s.at(p), (n - 1) as nat) {
                    Some((rest, end)) => Some((seq![v] + rest, end)),
                    None => None,
                }
            },
            None => None,
        }
    }
}

/// What a length-prefixed list denotes: a four-byte little-endian count,
/// then that many items.
pub open spec fn spec_quicklist<P: TypeReaderParser>(parser: &P, s: StreamV) -> Option<
    (Seq<<P::Output as DeepView>::V>, int),
> {
    if s.pos + 4 <= s.data.len() {
        let count = crate::cursor::spec_le_u32(s.data, s.pos) as i32;
        if count >= 0 {
            spec_list_items(parser, s.at(s.pos + 4), count as nat)
        } else {
            None
        }
    } else {
        None
    }
}

/// Read a length-prefixed list, the helper leaf decoders use for nearly
/// every repeated structure: a four-byte little-endian count (negative
/// counts are rejected), then that many items through `parser`.
pub fn quicklist<P: TypeReaderParser>(parser: &P, input: &mut Stream) -> (r: Result<
    Vec<P::Output>,
    XnbError,
>)
    requires
        parser.wf(),
        old(input).wf(),
    ensures
        final(input).wf(),
        final(input)@.data == old(input)@.data,
        final(input)@.table == old(input)@.table,
        old(input)@.pos <= final(input)@.pos <= final(input)@.data.len(),
        match spec_quicklist(parser, old(input)@) {
            Some((items, end)) => {
                &&& r is Ok
                &&& final(input)@.pos == end
                &&& r->Ok_0@.len() == items.len()
                &&& forall|i: int|
                    0 <= i < items.len() ==> (#[trigger] r->Ok_0@[i]).deep_view() == items[i]
            },
            None => r is Err,
        },
{
    let start = input.input.offset();
    let count32 = match input.input.read_i32_le() {
        Some(v) => v,
        None => {
            return Err(XnbError::UnexpectedEof { offset: start });
        },
    };
    if count32 < 0 {
        return Err(XnbError::NegativeCount { offset: start });
    }
    let count = count32 as usize;
    let ghost walk = spec_list_items(parser, input@, count as nat);
    let ghost view_start = input@;
    let mut out: Vec<P::Output> = Vec::new();
    let mut i: usize = 0;
    while i < count
        invariant
            parser.wf(),
            input.wf(),
            i <= count,
            out@.len() == i,
            view_start.data == old(input)@.data,
            view_start.table == old(input)@.table,
            view_start.pos == old(input)@.pos + 4,
            input@.data == view_start.data,
            input@.table == view_start.table,
            view_start.pos <= input@.pos <= input@.data.len(),
            walk == spec_list_items(parser, view_start, count as nat),
            spec_quicklist(parser, old(input)@) == walk,
            ({
                let rec = spec_list_items(parser, input@, (count - i) as nat);
                walk matches Some((items, end)) ==> {
                    &&& rec matches Some((rest, end2))
                    &&& items == items.subrange(0, i as int) + rest
                    &&& end == end2
                    &&& items.len() >= i
                    &&& forall|j: int|
                        0 <= j < i ==> (#[trigger] out@[j]).deep_view() == items[j]
                }
            }),
            spec_list_items(parser, input@, (count - i) as nat) is Some ==> walk is Some,
        decreases count - i,
    {
        let ghost view_before = input@;
        let item = match parser.parse_next(input) {
            Ok(v) => v,
            Err(e) => {
                proof {
                    assert(spec_list_items(parser, view_before, (count - i) as nat) is None);
                }
                return Err(e);
            },
        };
        let ghost pushed = item;
        out.push(item);
        i = i + 1;
        proof {
            let (first, p) = parser.spec_parse(view_before)->0;
            let rec_before = spec_list_items(parser, view_before, (count - i + 1) as nat);
            let rec_after = spec_list_items(parser, input@, (count - i) as nat);
            assert(view_before.at(p) == input@);
            if walk is Some {
                let (items, end) = walk->0;
                let (rest, end2) = rec_before->0;
                let (rest2, end3) = rec_after->0;
                assert(rest == seq![first] + rest2);
                assert(items == items.subrange(0, i - 1) + rest);
                assert(items.subrange(0, i - 1).len() == i - 1);
                assert(items[i - 1] == rest[0]);
                assert(items[i - 1] == first);
                assert(pushed.deep_view() == first);
                assert(items.subrange(0, i as int) =~= items.subrange(0, i - 1).push(first));
                assert(items =~= items.subrange(0, i as int) + rest2);
            }
        }
    }
    proof {
        if walk is Some {
            let (items, end) = walk->0;
            assert(items =~= items.subrange(0, count as int));
        }
    }
    Ok(out)
}

} // verus!
