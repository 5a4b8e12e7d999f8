//! The compression-frame expander.
//!
//! A compressed body opens with a four-byte little-endian declared
//! decompressed size (values over 1 GiB are rejected as a safety stop)
//! and then holds a sequence of frames.  Each frame starts with a
//! two-byte big-endian block size; a first byte of `0xFF` is an escape
//! that carries an explicit frame size (default 32 KiB) before the real
//! block size.  A zero block or frame size ends the stream, and the
//! remaining input is deliberately discarded.  Each block feeds a
//! stateful 64 KiB sliding-window decompressor that expands to exactly
//! the frame size; the window state is sequential, so one corrupt block
//! makes the rest of the document unrecoverable.

use vstd::prelude::*;
use crate::cursor::Cursor;
use crate::error::XnbError;

verus! {

#[verifier::external_type_specification]
#[verifier::external_body]
pub struct ExLzxd(lzxd::Lzxd);

/// What a decompressor value has been fed so far: each compressed chunk
/// together with the output length that was asked of it.  The sliding
/// window's state is a function of this history alone.
pub uninterp spec fn lzx_history(l: lzxd::Lzxd) -> Seq<(Seq<u8>, nat)>;

/// What expanding one more chunk yields, as a function of the history,
/// the chunk, and the requested output length; `None` when the chunk does
/// not decode.
pub uninterp spec fn lzx_output(history: Seq<(Seq<u8>, nat)>, chunk: Seq<u8>, output_len: nat) -> Option<
    Seq<u8>,
>;

/// Relies on `lzxd::Lzxd::new` with the 64 KiB window: a fresh decoder
/// state with nothing fed to it yet.
#[verifier::external_body]
fn lzxd_new() -> (r: lzxd::Lzxd)
    ensures
        lzx_history(r) == Seq::<(Seq<u8>, nat)>::empty(),
{
    lzxd::Lzxd::new(lzxd::WindowSize::KB64)
}

/// Relies on `lzxd::Lzxd::decompress_next`: deterministic state-machine
/// decoding, so the result is a function of the chunks fed so far; on
/// success the returned slice holds exactly `output_len` bytes (its
/// decode loop runs until that many bytes are produced and errors
/// otherwise).
///
/// Known limit of the outside decoder: an uncompressed block loads three
/// raw 32-bit repeat offsets straight from the chunk bytes, and a later
/// match through repeat slot 0 can carry such an offset into the window's
/// wrap-around index arithmetic, where `buffer.len() + pos + i - offset`
/// underflows for offsets past the window.  In builds with overflow
/// checks that aborts the process instead of returning an error.  No
/// condition over the chunk bytes that this crate can state excludes
/// those inputs, so the contract below holds of every call that returns;
/// the crate's no-panic guarantee does not extend over this one call.
#[verifier::external_body]
fn decompress_chunk(lzxd: &mut lzxd::Lzxd, chunk: &[u8], output_len: usize) -> (r: Option<
    Vec<u8>,
>)
    ensures
        lzx_history(*final(lzxd)) == lzx_history(*old(lzxd)).push((chunk@, output_len as nat)),
        match lzx_output(lzx_history(*old(lzxd)), chunk@, output_len as nat) {
            Some(out) => r is Some && r->0@ == out,
            None => r is None,
        },
        r is Some ==> r->0@.len() == output_len,
{
    match lzxd.decompress_next(chunk, output_len) {
        Ok(decoded) => Some(decoded.to_vec()),
        Err(_) => None,
    }
}

/// The 1 GiB cap on the declared decompressed size.
pub const MAX_DECOMPRESSED_SIZE: u32 = 0x40000000;

/// The default frame size: one 32 KiB window's worth of output.
pub const DEFAULT_FRAME_SIZE: u16 = 0x8000;

/// The output buffer at its declared size: whatever the frames never
/// reached stays zero.
pub open spec fn spec_zero_pad(out: Seq<u8>, size: nat) -> Seq<u8> {
    if out.len() >= size {
        out
    } else {
        out + Seq::new((size - out.len()) as nat, |i: int| 0u8)
    }
}

/// What walking the frames from `pos` produces, given the decompressor
/// history `hist` and the output `out` built so far.  `None` is a fatal
/// decompression failure: a truncated frame header or block, a block the
/// window decoder rejects, or output past the declared size.
pub open spec fn spec_frames(
    data: Seq<u8>,
    pos: int,
    hist: Seq<(Seq<u8>, nat)>,
    out: Seq<u8>,
    size: nat,
) -> Option<Seq<u8>>
    decreases data.len() - pos,
{
    if pos < 0 || pos >= data.len() {
        Some(spec_zero_pad(out, size))
    } else if pos + 2 > data.len() {
        None
    } else {
        let hi = data[pos];
        let lo = data[pos + 1];
        if hi == 0xff {
            if pos + 5 > data.len() {
                None
            } else {
                let frame = lo as int * 256 + data[pos + 2];
                let block = data[pos + 3] as int * 256 + data[pos + 4];
                if block == 0 || frame == 0 {
                    Some(spec_zero_pad(out, size))
                } else if pos + 5 + block > data.len() {
                    None
                } else {
                    let chunk = data.subrange(pos + 5, pos + 5 + block);
                    match lzx_output(hist, chunk, frame as nat) {
                        Some(decoded) => {
                            if out.len() + decoded.len() > size {
                                None
                            } else {
                                spec_frames(
                                    data,
                                    pos + 5 + block,
                                    hist.push((chunk, frame as nat)),
                                    out + decoded,
                                    size,
                                )
                            }
                        },
                        None => None,
                    }
                }
            }
        } else {
            let frame = 0x8000int;
            let block = hi as int * 256 + lo;
            if block == 0 {
                Some(spec_zero_pad(out, size))
            } else if pos + 2 + block > data.len() {
                None
            } else {
                let chunk = data.subrange(pos + 2, pos + 2 + block);
                match lzx_output(hist, chunk, frame as nat) {
                    Some(decoded) => {
                        if out.len() + decoded.len() > size {
                            None
                        } else {
                            spec_frames(
                                data,
                                pos + 2 + block,
                                hist.push((chunk, frame as nat)),
                                out + decoded,
                                size,
                            )
                        }
                    },
                    None => None,
                }
            }
        }
    }
}


/// The error a failed frame walk reports, as a function of the same
/// arguments as [`spec_frames`]; meaningful only where that walk is
/// `None`.  A truncated frame header or block reports where the bytes
/// ran out; a block the window decoder rejects, and a block whose output
/// would run past the declared size, report the frame's start.
pub open spec fn spec_frames_failure(
    data: Seq<u8>,
    pos: int,
    hist: Seq<(Seq<u8>, nat)>,
    out: Seq<u8>,
    size: nat,
) -> XnbError
    decreases data.len() - pos,
{
    if pos < 0 || pos >= data.len() {
        XnbError::UnexpectedEof { offset: data.len() as usize }
    } else if pos + 2 > data.len() {
        XnbError::UnexpectedEof { offset: pos as usize }
    } else {
        let hi = data[pos];
        let lo = data[pos + 1];
        if hi == 0xff {
            if pos + 5 > data.len() {
                XnbError::UnexpectedEof { offset: pos as usize }
            } else {
                let frame = lo as int * 256 + data[pos + 2];
                let block = data[pos + 3] as int * 256 + data[pos + 4];
                if block == 0 || frame == 0 {
                    XnbError::UnexpectedEof { offset: data.len() as usize }
                } else if pos + 5 + block > data.len() {
                    XnbError::UnexpectedEof { offset: (pos + 5) as usize }
                } else {
                    let chunk = data.subrange(pos + 5, pos + 5 + block);
                    match lzx_output(hist, chunk, frame as nat) {
                        Some(decoded) => {
                            if out.len() + decoded.len() > size {
                                XnbError::BadBlock { offset: pos as usize }
                            } else {
                                spec_frames_failure(
                                    data,
                                    pos + 5 + block,
                                    hist.push((chunk, frame as nat)),
                                    out + decoded,
                                    size,
                                )
                            }
                        },
                        None => XnbError::BadBlock { offset: pos as usize },
                    }
                }
            }
        } else {
            let frame = 0x8000int;
            let block = hi as int * 256 + lo;
            if block == 0 {
                XnbError::UnexpectedEof { offset: data.len() as usize }
            } else if pos + 2 + block > data.len() {
                XnbError::UnexpectedEof { offset: (pos + 2) as usize }
            } else {
                let chunk = data.subrange(pos + 2, pos + 2 + block);
                match lzx_output(hist, chunk, frame as nat) {
                    Some(decoded) => {
                        if out.len() + decoded.len() > size {
                            XnbError::BadBlock { offset: pos as usize }
                        } else {
                            spec_frames_failure(
                                data,
                                pos + 2 + block,
                                hist.push((chunk, frame as nat)),
                                out + decoded,
                                size,
                            )
                        }
                    },
                    None => XnbError::BadBlock { offset: pos as usize },
                }
            }
        }
    }
}

/// Expand a compressed body.  Reads the declared size, then walks the
/// frames, feeding each size-framed block to the sliding-window
/// decompressor and writing its output forward into a buffer of exactly
/// the declared size; whatever the frames never reach stays zero.
///
/// The whole expansion is the function of the input that [`spec_frames`]
/// gives, over the window model.  Success is owed only as far as the
/// outside decompressor decides: a block it rejects, and a block whose
/// output would run past the declared size, are [`XnbError::BadBlock`].
///
/// A crafted block can abort inside the outside decoder instead of
/// returning (see [`decompress_chunk`] on its window arithmetic): the
/// no-panic guarantee of this crate's own verified code does not extend
/// over that call.
pub fn decompress(cur: &mut Cursor) -> (r: Result<Vec<u8>, XnbError>)
    requires
        old(cur).wf(),
    ensures
        final(cur).wf(),
        final(cur).data() == old(cur).data(),
        old(cur).pos() <= final(cur).pos(),
        old(cur).pos() + 4 > old(cur).data().len() ==> r is Err && r->Err_0 is UnexpectedEof,
        r is Ok ==> old(cur).pos() + 4 <= old(cur).data().len() && r->Ok_0@.len()
            == crate::cursor::spec_le_u32(old(cur).data(), old(cur).pos()),
        (old(cur).pos() + 4 <= old(cur).data().len() && crate::cursor::spec_le_u32(
            old(cur).data(),
            old(cur).pos(),
        ) > MAX_DECOMPRESSED_SIZE) ==> (r is Err && (r->Err_0 matches XnbError::SizeTooLarge {
            offset,
            size,
        } && size == crate::cursor::spec_le_u32(old(cur).data(), old(cur).pos()))),
        (old(cur).pos() + 4 <= old(cur).data().len() && crate::cursor::spec_le_u32(
            old(cur).data(),
            old(cur).pos(),
        ) <= MAX_DECOMPRESSED_SIZE) ==> match spec_frames(
            old(cur).data(),
            old(cur).pos() + 4,
            Seq::empty(),
            Seq::empty(),
            crate::cursor::spec_le_u32(old(cur).data(), old(cur).pos()) as nat,
        ) {
            Some(res) => r is Ok && r->Ok_0@ == res
                && final(cur).pos() == final(cur).data().len(),
            None => r is Err && r->Err_0 == spec_frames_failure(
                old(cur).data(),
                old(cur).pos() + 4,
                Seq::empty(),
                Seq::empty(),
                crate::cursor::spec_le_u32(old(cur).data(), old(cur).pos()) as nat,
            ),
        },
{
    let start = cur.offset();
    let ghost s = old(cur).data();
    let size32 = match cur.read_u32_le() {
        Some(v) => v,
        None => {
            return Err(XnbError::UnexpectedEof { offset: start });
        },
    };
    if size32 > MAX_DECOMPRESSED_SIZE {
        return Err(XnbError::SizeTooLarge { offset: start, size: size32 });
    }
    let size = size32 as usize;
    // One output buffer of exactly the declared size; the frame loop only
    // ever writes forward into it.
    let mut out: Vec<u8> = vec![0u8; size];
    let mut written: usize = 0;
    let ghost mut produced = Seq::<u8>::empty();
    let mut lzxd = lzxd_new();
    let ghost total = spec_frames(
        s,
        old(cur).pos() + 4,
        Seq::empty(),
        Seq::empty(),
        size as nat,
    );
    while !cur.is_empty()
        invariant
            s == old(cur).data(),
            0 <= old(cur).pos(),
            cur.wf(),
            cur.data() == s,
            old(cur).pos() + 4 <= cur.pos(),
            old(cur).pos() + 4 <= s.len(),
            size == crate::cursor::spec_le_u32(s, old(cur).pos()),
            size <= MAX_DECOMPRESSED_SIZE,
            written <= size,
            out@.len() == size,
            produced.len() == written,
            forall|k: int| 0 <= k < written ==> out@[k] == produced[k],
            forall|k: int| written <= k < size ==> out@[k] == 0,
            total == spec_frames(
                s,
                old(cur).pos() + 4,
                Seq::empty(),
                Seq::empty(),
                size as nat,
            ),
            total == spec_frames(s, cur.pos(), lzx_history(lzxd), produced, size as nat),
            spec_frames_failure(
                s,
                old(cur).pos() + 4,
                Seq::empty(),
                Seq::empty(),
                size as nat,
            ) == spec_frames_failure(s, cur.pos(), lzx_history(lzxd), produced, size as nat),
        decreases cur.data().len() - cur.pos(),
    {
        let frame_start = cur.offset();
        let ghost hist0 = lzx_history(lzxd);
        let ghost produced0 = produced;
        let hi0 = match cur.read_u8() {
            Some(b) => b,
            None => {
                return Err(XnbError::UnexpectedEof { offset: frame_start });
            },
        };
        let lo0 = match cur.read_u8() {
            Some(b) => b,
            None => {
                proof {
                    assert(spec_frames(s, frame_start as int, hist0, produced0, size as nat)
                        is None);
                }
                return Err(XnbError::UnexpectedEof { offset: frame_start });
            },
        };
        let mut block_size: u16 = (hi0 as u16) * 0x100 + (lo0 as u16);
        let mut frame_size: u16 = DEFAULT_FRAME_SIZE;
        if hi0 == 0xff {
            // Escape: an explicit frame size precedes the real block size.
            let lo1 = match cur.read_u8() {
                Some(b) => b,
                None => {
                    proof {
                        assert(spec_frames(s, frame_start as int, hist0, produced0, size as nat)
                            is None);
                    }
                    return Err(XnbError::UnexpectedEof { offset: frame_start });
                },
            };
            frame_size = (lo0 as u16) * 0x100 + (lo1 as u16);
            let hi2 = match cur.read_u8() {
                Some(b) => b,
                None => {
                    proof {
                        assert(spec_frames(s, frame_start as int, hist0, produced0, size as nat)
                            is None);
                    }
                    return Err(XnbError::UnexpectedEof { offset: frame_start });
                },
            };
            let lo2 = match cur.read_u8() {
                Some(b) => b,
                None => {
                    proof {
                        assert(spec_frames(s, frame_start as int, hist0, produced0, size as nat)
                            is None);
                    }
                    return Err(XnbError::UnexpectedEof { offset: frame_start });
                },
            };
            block_size = (hi2 as u16) * 0x100 + (lo2 as u16);
        }
        if block_size == 0 || frame_size == 0 {
            // End marker: the remaining compressed bytes are discarded.
            proof {
                assert(total == Some(spec_zero_pad(produced, size as nat)));
                assert(out@ =~= spec_zero_pad(produced, size as nat));
            }
            let _unused = cur.rest();
            return Ok(out);
        }
        let ghost body_start = cur.pos();
        let block = match cur.read_slice(block_size as usize) {
            Some(b) => b,
            None => {
                proof {
                    assert(spec_frames(s, frame_start as int, hist0, produced0, size as nat)
                        is None);
                }
                return Err(XnbError::UnexpectedEof { offset: cur.offset() });
            },
        };
        let chunk = match decompress_chunk(&mut lzxd, block, frame_size as usize) {
            Some(c) => c,
            None => {
                proof {
                    assert(block@ == s.subrange(body_start, body_start + block_size as int));
                    assert(spec_frames(s, frame_start as int, hist0, produced0, size as nat)
                        is None);
                }
                return Err(XnbError::BadBlock { offset: frame_start });
            },
        };
        if chunk.len() > size - written {
            proof {
                assert(block@ == s.subrange(body_start, body_start + block_size as int));
                assert(spec_frames(s, frame_start as int, hist0, produced0, size as nat)
                    is None);
            }
            return Err(XnbError::BadBlock { offset: frame_start });
        }
        // Copy the expanded frame forward into the buffer.
        let clen = chunk.len();
        let mut j: usize = 0;
        while j < clen
            invariant
                j <= clen,
                clen == chunk@.len(),
                written + clen <= size,
                written == produced.len(),
                out@.len() == size,
                forall|k: int| 0 <= k < written ==> out@[k] == produced[k],
                forall|k: int| written <= k < written + j ==> out@[k] == chunk@[k - written],
                forall|k: int| written + j <= k < size ==> out@[k] == 0,
            decreases clen - j,
        {
            let b = chunk[j];
            out[written + j] = b;
            j = j + 1;
        }
        proof {
            assert(block@ == s.subrange(body_start, body_start + block_size as int));
            assert(lzx_history(lzxd) == hist0.push((block@, frame_size as nat)));
            assert(spec_frames(s, frame_start as int, hist0, produced0, size as nat)
                == spec_frames(
                s,
                cur.pos(),
                lzx_history(lzxd),
                produced0 + chunk@,
                size as nat,
            ));
            produced = produced + chunk@;
        }
        written = written + clen;
        proof {
            assert forall|k: int| 0 <= k < written implies out@[k] == produced[k] by {
                if k < produced0.len() {
                    assert(produced[k] == produced0[k]);
                } else {
                    assert(produced[k] == chunk@[k - produced0.len()]);
                }
            }
        }
    }
    proof {
        assert(total == Some(spec_zero_pad(produced, size as nat)));
        assert(out@ =~= spec_zero_pad(produced, size as nat));
    }
    Ok(out)
}

} // verus!
