//! The fixed-size document header.
//!
//! Thirteen bytes: a three-byte magic literal, a platform code, four
//! reserved bytes that are skipped uninterpreted, a flags byte, and a
//! four-byte little-endian declared total size.  Unknown platform codes
//! and unhandled flag bits are soft anomalies; only a wrong magic is
//! fatal.  The declared size is parsed but never cross-checked against
//! the actual buffer length.

use vstd::prelude::*;
use crate::cursor::{Cursor, spec_le_u32};
use crate::error::{Diagnostic, XnbError};

verus! {

/// Flag bit 0: the document was built for the reduced feature profile.
pub const FLAG_HIDEF_PROFILE: u8 = 0x01;

/// Flag bit 7: the body is compressed.
pub const FLAG_COMPRESSED: u8 = 0x80;

/// The platform code the engine knows.
pub const PLATFORM_WINDOWS: u8 = 0x77;

/// The parsed document header.
#[derive(Clone, Copy, PartialEq, Eq, Structural, Debug)]
pub struct Header {
    pub platform: u8,
    pub flags: u8,
    /// Declared size of the whole file, header included.
    pub file_size: u32,
}

/// Whether the three magic bytes `"XNB"` stand at `pos`.
pub open spec fn spec_magic_ok(s: Seq<u8>, pos: int) -> bool {
    &&& pos + 3 <= s.len()
    &&& s[pos] == 0x58u8
    &&& s[pos + 1] == 0x4eu8
    &&& s[pos + 2] == 0x42u8
}

/// The header denoted by the thirteen bytes at `pos`, if they are present
/// and start with the magic literal.
pub open spec fn spec_header_at(s: Seq<u8>, pos: int) -> Option<Header> {
    if pos + 13 <= s.len() && spec_magic_ok(s, pos) {
        Some(
            Header { platform: s[pos + 3], flags: s[pos + 8], file_size: spec_le_u32(s, pos + 9) },
        )
    } else {
        None
    }
}

/// Read the thirteen header bytes.  A wrong magic is fatal; a short buffer
/// reports where the input ran out.
pub fn parse_header(cur: &mut Cursor) -> (r: Result<Header, XnbError>)
    requires
        old(cur).wf(),
    ensures
        final(cur).wf(),
        final(cur).data() == old(cur).data(),
        match spec_header_at(old(cur).data(), old(cur).pos()) {
            Some(h) => r is Ok && r->Ok_0 == h && final(cur).pos() == old(cur).pos() + 13,
            None => {
                &&& r is Err
                &&& (r->Err_0 is BadMagic || r->Err_0 is UnexpectedEof)
                &&& (old(cur).pos() + 3 <= old(cur).data().len() && !spec_magic_ok(
                    old(cur).data(),
                    old(cur).pos(),
                ) ==> (r->Err_0 matches XnbError::BadMagic { offset } && offset == old(
                    cur,
                ).pos()))
                &&& (spec_magic_ok(old(cur).data(), old(cur).pos()) ==> r->Err_0 is UnexpectedEof)
            },
        },
{
    let start = cur.offset();
    let magic = match cur.read_bytes(3) {
        Some(m) => m,
        None => {
            return Err(XnbError::UnexpectedEof { offset: start });
        },
    };
    if !(magic[0] == 0x58 && magic[1] == 0x4e && magic[2] == 0x42) {
        return Err(XnbError::BadMagic { offset: start });
    }
    let platform = match cur.read_u8() {
        Some(b) => b,
        None => {
            return Err(XnbError::UnexpectedEof { offset: cur.offset() });
        },
    };
    // Four reserved bytes, skipped uninterpreted.
    match cur.read_bytes(4) {
        Some(_) => (),
        None => {
            return Err(XnbError::UnexpectedEof { offset: cur.offset() });
        },
    };
    let flags = match cur.read_u8() {
        Some(b) => b,
        None => {
            return Err(XnbError::UnexpectedEof { offset: cur.offset() });
        },
    };
    let file_size = match cur.read_u32_le() {
        Some(v) => v,
        None => {
            return Err(XnbError::UnexpectedEof { offset: cur.offset() });
        },
    };
    Ok(Header { platform, flags, file_size })
}

/// The soft anomalies a header carries: an unknown platform code, and any
/// flag bit the engine does not handle (everything but the compression
/// bit; the reduced-profile bit is informational and reported with the
/// rest, as the engine ignores it).
pub open spec fn spec_header_diagnostics(h: Header) -> Seq<Diagnostic> {
    let platform_part: Seq<Diagnostic> = if h.platform != PLATFORM_WINDOWS {
        seq![Diagnostic::UnknownPlatform { platform: h.platform }]
    } else {
        Seq::empty()
    };
    let flags_part: Seq<Diagnostic> = if h.flags & 0x7f != 0 {
        seq![Diagnostic::UnhandledFlags { flags: h.flags }]
    } else {
        Seq::empty()
    };
    platform_part + flags_part
}

/// Record the header's soft anomalies on the diagnostic log.
pub fn log_header_diagnostics(h: &Header, diags: &mut Vec<Diagnostic>)
    ensures
        final(diags)@ == old(diags)@ + spec_header_diagnostics(*h),
{
    if h.platform != PLATFORM_WINDOWS {
        diags.push(Diagnostic::UnknownPlatform { platform: h.platform });
    }
    if h.flags & 0x7f != 0 {
        diags.push(Diagnostic::UnhandledFlags { flags: h.flags });
    }
    proof {
        assert(diags@ =~= old(diags)@ + spec_header_diagnostics(*h));
    }
}

} // verus!
