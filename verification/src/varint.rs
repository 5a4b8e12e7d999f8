//! The 7-bit varint codec.
//!
//! Integers are stored little-endian in 7-bit groups; the high bit of each
//! byte signals continuation.  The format uses this encoding for nearly
//! every count, length, and type or reference id.  The accumulator is
//! 32 bits wide; a continuation chain longer than five bytes cannot fit
//! and is rejected as [`XnbError::VarintTooLong`] rather than silently
//! wrapped or truncated.

use vstd::prelude::*;
use crate::cursor::Cursor;
use crate::error::XnbError;

verus! {

/// 128 to the `k`-th power: the weight of the `k`-th 7-bit group.
pub open spec fn pow128(k: nat) -> int
    decreases k,
{
    if k == 0 {
        1
    } else {
        128 * pow128((k - 1) as nat)
    }
}

/// The unbounded integer denoted by a sequence of varint data bytes,
/// first byte least significant, continuation bits ignored.
pub open spec fn spec_varint_raw(bytes: Seq<u8>) -> int
    decreases bytes.len(),
{
    if bytes.len() == 0 {
        0
    } else {
        (bytes[0] & 0x7f) as int + 128 * spec_varint_raw(bytes.skip(1))
    }
}

/// Where a varint that starts at `pos` ends, if a terminating byte (high
/// bit clear) occurs within `budget` bytes and before the end of input.
pub open spec fn spec_varint_end_from(s: Seq<u8>, pos: int, budget: nat) -> Option<int>
    decreases budget,
{
    if pos < 0 || pos >= s.len() || budget == 0 {
        None
    } else if s[pos] < 0x80 {
        Some(pos + 1)
    } else {
        spec_varint_end_from(s, pos + 1, (budget - 1) as nat)
    }
}

/// The value and end position of the varint at `pos`, or `None` when the
/// input ends first or the chain runs past five bytes.
pub open spec fn spec_varint(s: Seq<u8>, pos: int) -> Option<(u32, int)> {
    match spec_varint_end_from(s, pos, 5) {
        Some(end) => Some(
            ((spec_varint_raw(s.subrange(pos, end)) % 0x100000000) as u32, end),
        ),
        None => None,
    }
}

/// The canonical encoding of a non-negative value: 7 bits per byte, least
/// significant group first, high bit set on every byte but the last.
pub open spec fn spec_varint_encode(v: nat) -> Seq<u8>
    decreases v,
{
    if v < 128 {
        seq![v as u8]
    } else {
        seq![(v % 128 + 128) as u8] + spec_varint_encode(v / 128)
    }
}

/// The encoding of an `i32`, through its two's-complement 32-bit image.
pub open spec fn spec_varint_encode_i32(v: i32) -> Seq<u8> {
    spec_varint_encode((v as u32) as nat)
}

proof fn lemma_pow128_small()
    ensures
        pow128(0) == 1,
        pow128(1) == 128,
        pow128(2) == 0x4000,
        pow128(3) == 0x200000,
        pow128(4) == 0x10000000,
        pow128(5) == 0x800000000,
{
    assert(pow128(0) == 1);
    assert(pow128(1) == 128 * pow128(0));
    assert(pow128(2) == 128 * pow128(1));
    assert(pow128(3) == 128 * pow128(2));
    assert(pow128(4) == 128 * pow128(3));
    assert(pow128(5) == 128 * pow128(4));
}

proof fn lemma_raw_push(bytes: Seq<u8>, b: u8)
    ensures
        spec_varint_raw(bytes.push(b)) == spec_varint_raw(bytes) + (b & 0x7f) * pow128(
            bytes.len(),
        ),
    decreases bytes.len(),
{
    if bytes.len() == 0 {
        assert(bytes.push(b).skip(1) =~= Seq::<u8>::empty());
        assert(bytes.push(b)[0] == b);
        assert(spec_varint_raw(Seq::<u8>::empty()) == 0);
        assert(pow128(0) == 1);
    } else {
        assert(bytes.push(b).skip(1) =~= bytes.skip(1).push(b));
        lemma_raw_push(bytes.skip(1), b);
        let p = pow128((bytes.len() - 1) as nat);
        assert(pow128(bytes.len()) == 128 * p);
        assert(128 * ((b & 0x7f) * p) == (b & 0x7f) * (128 * p)) by (nonlinear_arith);
    }
}

/// An encoding is never longer than the number of groups its value needs.
proof fn lemma_encode_len(v: nat, k: nat)
    requires
        1 <= k,
        v < pow128(k),
    ensures
        spec_varint_encode(v).len() <= k,
    decreases v,
{
    if v >= 128 {
        assert(pow128(k) == 128 * pow128((k - 1) as nat));
        lemma_encode_len(v / 128, (k - 1) as nat);
    }
}

/// Decoding an encoded value, at any position and with any suffix behind
/// it, yields the value back and stops at the terminating byte.
proof fn lemma_decode_encode_at(s: Seq<u8>, pos: int, v: nat, budget: nat)
    requires
        spec_varint_encode(v).len() <= budget,
        0 <= pos,
        pos + spec_varint_encode(v).len() <= s.len(),
        s.subrange(pos, pos + spec_varint_encode(v).len()) == spec_varint_encode(v),
    ensures
        spec_varint_end_from(s, pos, budget) == Some(pos + spec_varint_encode(v).len() as int),
        spec_varint_raw(spec_varint_encode(v)) == v,
    decreases v,
{
    let enc = spec_varint_encode(v);
    assert(s[pos] == enc[0]);
    if v < 128 {
        assert(enc.skip(1) =~= Seq::<u8>::empty());
        assert(spec_varint_raw(Seq::<u8>::empty()) == 0);
        let e0: u8 = enc[0];
        assert(e0 == v as u8);
        assert((e0 & 0x7f) == e0) by (bit_vector)
            requires
                e0 < 128,
        ;
        assert(spec_varint_raw(enc) == v);
    } else {
        let enc2 = spec_varint_encode(v / 128);
        assert(s[pos] == (v % 128 + 128) as u8);
        assert(s[pos] >= 0x80) by {
            assert(v % 128 < 128);
        };
        assert(s.subrange(pos + 1, pos + 1 + enc2.len()) =~= enc2) by {
            assert forall|i: int| 0 <= i < enc2.len() implies s.subrange(
                pos + 1,
                pos + 1 + enc2.len(),
            )[i] == enc2[i] by {
                assert(s[pos + 1 + i] == s.subrange(pos, pos + enc.len())[1 + i]);
                assert(enc[1 + i] == enc2[i]);
            }
        };
        lemma_decode_encode_at(s, pos + 1, v / 128, (budget - 1) as nat);
        assert(enc.skip(1) =~= enc2);
        assert(spec_varint_raw(enc) == (enc[0] & 0x7f) as int + 128 * spec_varint_raw(enc2));
        let e0: u8 = enc[0];
        let m8: u8 = (v % 128) as u8;
        assert(e0 == (m8 + 128) as u8);
        assert((e0 & 0x7f) == m8) by (bit_vector)
            requires
                e0 == (m8 + 128) as u8,
                m8 < 128,
        ;
        assert(spec_varint_raw(enc2) == v / 128);
        assert(spec_varint_raw(enc) == v % 128 + 128 * (v / 128));
        assert(v % 128 + 128 * (v / 128) == v) by (nonlinear_arith);
    }
}

/// Law: every `i32` survives an encode-decode round trip, whatever bytes
/// follow the encoding: decoding stops exactly at the terminating byte and
/// returns the original two's-complement value.
pub proof fn lemma_varint_round_trip(v: i32, suffix: Seq<u8>)
    ensures
        ({
            let enc = spec_varint_encode_i32(v);
            &&& spec_varint(enc + suffix, 0) == Some(
                ((v as u32), enc.len() as int),
            )
            &&& enc.len() <= 5
            &&& (v as u32) as i32 == v
        }),
{
    let n = (v as u32) as nat;
    let enc = spec_varint_encode(n);
    assert(n < 0x100000000);
    lemma_pow128_small();
    lemma_encode_len(n, 5);
    let s = enc + suffix;
    assert(s.subrange(0, enc.len() as int) =~= enc);
    lemma_decode_encode_at(s, 0, n, 5);
    assert(spec_varint_raw(enc) == n);
    assert(n % 0x100000000 == n);
    assert(s.subrange(0, spec_varint_end_from(s, 0, 5)->0) =~= enc);
    assert((v as u32) as i32 == v) by (bit_vector);
}

/// The error a failed varint read reports, as a function of the bytes:
/// a sixth continuation byte is rejected where it stands, and a chain
/// that runs off the end of the input reports the input's end.
pub open spec fn spec_varint_failure(s: Seq<u8>, pos: int) -> XnbError {
    if pos + 5 <= s.len() && (forall|i: int| pos <= i < pos + 5 ==> s[i] >= 0x80) {
        XnbError::VarintTooLong { offset: (pos + 5) as usize }
    } else {
        XnbError::UnexpectedEof { offset: s.len() as usize }
    }
}

/// Read one varint-encoded 32-bit value.  The result is the accumulated
/// 7-bit groups as an unsigned 32-bit integer; a sixth continuation byte
/// is rejected.
pub fn read_varint_u32(cur: &mut Cursor) -> (r: Result<u32, XnbError>)
    requires
        old(cur).wf(),
    ensures
        final(cur).wf(),
        final(cur).data() == old(cur).data(),
        old(cur).pos() <= final(cur).pos(),
        match spec_varint(old(cur).data(), old(cur).pos()) {
            Some((v, end)) => r is Ok && r->Ok_0 == v && final(cur).pos() == end,
            None => r is Err && r->Err_0 == spec_varint_failure(old(cur).data(), old(cur).pos()),
        },
{
    let ghost s = old(cur).data();
    let ghost start = old(cur).pos();
    let mut acc: u64 = 0;
    let mut mul: u64 = 1;
    let mut k: usize = 0;
    proof {
        assert(s.subrange(start, start) =~= Seq::<u8>::empty());
        assert(spec_varint_raw(Seq::<u8>::empty()) == 0);
        assert(pow128(0) == 1);
    }
    loop
        invariant
            s == old(cur).data(),
            start == old(cur).pos(),
            0 <= start,
            cur.wf(),
            cur.data() == s,
            k <= 4,
            cur.pos() == start + k,
            mul == pow128(k as nat),
            acc == spec_varint_raw(s.subrange(start, start + k)),
            acc < mul,
            forall|i: int| start <= i < start + k ==> s[i] >= 0x80,
            spec_varint_end_from(s, start, 5) == spec_varint_end_from(
                s,
                start + k,
                (5 - k) as nat,
            ),
        decreases 5 - k,
    {
        proof {
            lemma_pow128_small();
            assert(mul <= 0x10000000) by {
                if k == 1 {
                    assert(mul == pow128(1));
                } else if k == 2 {
                    assert(mul == pow128(2));
                } else if k == 3 {
                    assert(mul == pow128(3));
                } else if k == 4 {
                    assert(mul == pow128(4));
                }
            };
        }
        match cur.read_u8() {
            None => {
                proof {
                    assert(spec_varint_end_from(s, start + k, (5 - k) as nat) is None);
                }
                return Err(XnbError::UnexpectedEof { offset: cur.offset() });
            },
            Some(b) => {
                proof {
                    assert(start + k + 1 <= s.len());
                    assert(b == s[start + k]);
                    assert(s.subrange(start, start + k + 1) =~= s.subrange(
                        start,
                        start + k,
                    ).push(b));
                    lemma_raw_push(s.subrange(start, start + k), b);
                    assert((b & 0x7f) < 128) by (bit_vector);
                }
                acc = acc + ((b & 0x7f) as u64) * mul;
                if b < 0x80 {
                    let r: u32 = #[verifier::truncate] (acc as u32);
                    proof {
                        assert(spec_varint_end_from(s, start + k, (5 - k) as nat) == Some(
                            start + k + 1,
                        ));
                        assert(acc as u32 == acc % 0x100000000) by (bit_vector);
                        assert(acc == spec_varint_raw(s.subrange(start, start + k + 1)));
                    }
                    return Ok(r);
                }
                if k == 4 {
                    proof {
                        assert(spec_varint_end_from(s, start + 4, 1) == spec_varint_end_from(
                            s,
                            start + 5,
                            0,
                        ));
                        assert(spec_varint_end_from(s, start + 5, 0) is None);
                    }
                    return Err(XnbError::VarintTooLong { offset: cur.offset() });
                }
                proof {
                    assert(spec_varint_end_from(s, start + k, (5 - k) as nat)
                        == spec_varint_end_from(s, start + k + 1, (4 - k) as nat));
                    assert(acc < 128 * mul);
                    assert(mul * 128 == pow128((k + 1) as nat));
                }
                mul = mul * 128;
                k = k + 1;
            },
        }
    }
}

/// Read a varint as the format's signed 32-bit integer.
pub fn read_varint_i32(cur: &mut Cursor) -> (r: Result<i32, XnbError>)
    requires
        old(cur).wf(),
    ensures
        final(cur).wf(),
        final(cur).data() == old(cur).data(),
        old(cur).pos() <= final(cur).pos(),
        match spec_varint(old(cur).data(), old(cur).pos()) {
            Some((v, end)) => r is Ok && r->Ok_0 == v as i32 && final(cur).pos() == end,
            None => r is Err && r->Err_0 == spec_varint_failure(old(cur).data(), old(cur).pos()),
        },
{
    match read_varint_u32(cur) {
        Ok(v) => Ok(#[verifier::truncate] (v as i32)),
        Err(e) => Err(e),
    }
}

/// Read a varint that must denote a count or id: a negative value is
/// rejected as [`XnbError::NegativeCount`].
pub fn read_varint_count(cur: &mut Cursor) -> (r: Result<usize, XnbError>)
    requires
        old(cur).wf(),
    ensures
        final(cur).wf(),
        final(cur).data() == old(cur).data(),
        old(cur).pos() <= final(cur).pos(),
        match spec_varint(old(cur).data(), old(cur).pos()) {
            Some((v, end)) => {
                if v < 0x80000000 {
                    r is Ok && r->Ok_0 == v && final(cur).pos() == end
                } else {
                    r is Err && (r->Err_0 matches XnbError::NegativeCount { offset } && offset
                        == old(cur).pos())
                }
            },
            None => r is Err && r->Err_0 == spec_varint_failure(old(cur).data(), old(cur).pos()),
        },
{
    let start = cur.offset();
    let v = read_varint_u32(cur)?;
    if v < 0x80000000 {
        Ok(v as usize)
    } else {
        Err(XnbError::NegativeCount { offset: start })
    }
}

/// Encode a non-negative 32-bit value as a varint.
pub fn encode_varint_u32(v: u32) -> (r: Vec<u8>)
    ensures
        r@ == spec_varint_encode(v as nat),
{
    let mut out: Vec<u8> = Vec::new();
    let mut rest: u32 = v;
    while rest >= 128
        invariant
            spec_varint_encode(v as nat) == out@ + spec_varint_encode(rest as nat),
        decreases rest,
    {
        proof {
            assert(spec_varint_encode(rest as nat) == seq![(rest as nat % 128 + 128) as u8]
                + spec_varint_encode(rest as nat / 128));
            assert(out@ + spec_varint_encode(rest as nat) =~= (out@.push(
                (rest as nat % 128 + 128) as u8,
            )) + spec_varint_encode(rest as nat / 128));
        }
        out.push((v_low_byte(rest)));
        rest = rest / 128;
    }
    proof {
        assert(spec_varint_encode(rest as nat) =~= seq![rest as u8]);
        assert(out@ + seq![rest as u8] =~= out@.push(rest as u8));
    }
    out.push(rest as u8);
    out
}

/// The low 7 bits of a value with the continuation bit set.
fn v_low_byte(v: u32) -> (r: u8)
    requires
        v >= 128,
    ensures
        r == (v as nat % 128 + 128) as u8,
{
    (v % 128 + 128) as u8
}

/// Encode an `i32` as a varint through its 32-bit two's-complement image.
pub fn encode_varint_i32(v: i32) -> (r: Vec<u8>)
    ensures
        r@ == spec_varint_encode_i32(v),
{
    encode_varint_u32(#[verifier::truncate] (v as u32))
}

} // verus!
