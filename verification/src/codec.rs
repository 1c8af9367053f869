//! The binary framing codec of the tunnel wire protocol.
//!
//! A logical byte stream is carried as a sequence of bounded frames.
//! Each frame opens with the request identifier (eight bytes, big
//! endian), the packet identifier (four bytes, big endian) and a last
//! flag byte; the first packet of a request additionally carries a
//! header block, length-prefixed.  The payload fills the rest, up to
//! the configured maximum packet size.  Chunks arriving from the
//! upstream source are split across frames as needed, with left-over
//! bytes carried into the next frame; when byte ranges are requested,
//! each frame window is cut down to the requested stretches.

use vstd::prelude::*;
use crate::ranges::{
    lemma_restriction_concat, lemma_restriction_empty, lemma_restriction_full, range_precedes,
    range_start, before_range_end, in_range, in_ranges, ranges_sorted_disjoint, restriction,
    ByteRange,
};

verus! {

/// The big-endian bytes of a 64-bit number.
pub open spec fn u64_be(x: u64) -> Seq<u8> {
    seq![
        (x >> 56) as u8,
        (x >> 48) as u8,
        (x >> 40) as u8,
        (x >> 32) as u8,
        (x >> 24) as u8,
        (x >> 16) as u8,
        (x >> 8) as u8,
        x as u8,
    ]
}

/// The big-endian bytes of a 32-bit number.
pub open spec fn u32_be(x: u32) -> Seq<u8> {
    seq![(x >> 24) as u8, (x >> 16) as u8, (x >> 8) as u8, x as u8]
}

/// Writes a 64-bit number big-endian.
pub fn u64_to_be_bytes(x: u64) -> (r: Vec<u8>)
    ensures
        r@ == u64_be(x),
{
    let mut v: Vec<u8> = Vec::new();
    v.push((x >> 56) as u8);
    v.push((x >> 48) as u8);
    v.push((x >> 40) as u8);
    v.push((x >> 32) as u8);
    v.push((x >> 24) as u8);
    v.push((x >> 16) as u8);
    v.push((x >> 8) as u8);
    v.push(x as u8);
    proof {
        assert(v@ =~= u64_be(x));
    }
    v
}

/// Writes a 32-bit number big-endian.
pub fn u32_to_be_bytes(x: u32) -> (r: Vec<u8>)
    ensures
        r@ == u32_be(x),
{
    let mut v: Vec<u8> = Vec::new();
    v.push((x >> 24) as u8);
    v.push((x >> 16) as u8);
    v.push((x >> 8) as u8);
    v.push(x as u8);
    proof {
        assert(v@ =~= u32_be(x));
    }
    v
}

/// Reads a big-endian 64-bit number: the unique value those eight
/// bytes encode.
pub fn u64_from_be_bytes(b: &[u8]) -> (r: u64)
    requires
        b@.len() == 8,
    ensures
        b@ == u64_be(r),
{
    let r = ((b[0] as u64) << 56) | ((b[1] as u64) << 48) | ((b[2] as u64) << 40) | ((b[3] as u64)
        << 32) | ((b[4] as u64) << 24) | ((b[5] as u64) << 16) | ((b[6] as u64) << 8) | (b[7]
        as u64);
    proof {
        let b0 = b@[0];
        let b1 = b@[1];
        let b2 = b@[2];
        let b3 = b@[3];
        let b4 = b@[4];
        let b5 = b@[5];
        let b6 = b@[6];
        let b7 = b@[7];
        assert(((((b0 as u64) << 56) | ((b1 as u64) << 48) | ((b2 as u64) << 40) | ((b3 as u64) << 32) | ((b4 as u64) << 24) | ((b5 as u64) << 16) | ((b6 as u64) << 8) | (b7 as u64)) >> 56) as u8 == b0 && ((((b0 as u64) << 56) | ((b1 as u64) << 48) | ((b2 as u64) << 40) | ((b3 as u64) << 32) | ((b4 as u64) << 24) | ((b5 as u64) << 16) | ((b6 as u64) << 8) | (b7 as u64)) >> 48) as u8 == b1 && ((((b0 as u64) << 56) | ((b1 as u64) << 48) | ((b2 as u64) << 40) | ((b3 as u64) << 32) | ((b4 as u64) << 24) | ((b5 as u64) << 16) | ((b6 as u64) << 8) | (b7 as u64)) >> 40) as u8 == b2 && ((((b0 as u64) << 56) | ((b1 as u64) << 48) | ((b2 as u64) << 40) | ((b3 as u64) << 32) | ((b4 as u64) << 24) | ((b5 as u64) << 16) | ((b6 as u64) << 8) | (b7 as u64))
            >> 32) as u8 == b3 && ((((b0 as u64) << 56) | ((b1 as u64) << 48) | ((b2 as u64) << 40) | ((b3 as u64) << 32) | ((b4 as u64) << 24) | ((b5 as u64) << 16) | ((b6 as u64) << 8) | (b7 as u64)) >> 24) as u8 == b4 && ((((b0 as u64) << 56) | ((b1 as u64) << 48) | ((b2 as u64) << 40) | ((b3 as u64) << 32) | ((b4 as u64) << 24) | ((b5 as u64) << 16) | ((b6 as u64) << 8) | (b7 as u64)) >> 16) as u8 == b5 && ((((b0 as u64) << 56) | ((b1 as u64) << 48) | ((b2 as u64) << 40) | ((b3 as u64) << 32) | ((b4 as u64) << 24) | ((b5 as u64) << 16) | ((b6 as u64) << 8) | (b7 as u64)) >> 8) as u8
            == b6 && (((b0 as u64) << 56) | ((b1 as u64) << 48) | ((b2 as u64) << 40) | ((b3 as u64) << 32) | ((b4 as u64) << 24) | ((b5 as u64) << 16) | ((b6 as u64) << 8) | (b7 as u64)) as u8 == b7) by (bit_vector);
        assert(b@ =~= u64_be(r));
    }
    r
}

/// Reads a big-endian 32-bit number: the unique value those four bytes
/// encode.
pub fn u32_from_be_bytes(b: &[u8]) -> (r: u32)
    requires
        b@.len() == 4,
    ensures
        b@ == u32_be(r),
{
    let r = ((b[0] as u32) << 24) | ((b[1] as u32) << 16) | ((b[2] as u32) << 8) | (b[3] as u32);
    proof {
        let b0 = b@[0];
        let b1 = b@[1];
        let b2 = b@[2];
        let b3 = b@[3];
        assert(((((b0 as u32) << 24) | ((b1 as u32) << 16) | ((b2 as u32) << 8) | (b3 as u32)) >> 24) as u8 == b0 && ((((b0 as u32) << 24) | ((b1 as u32) << 16) | ((b2 as u32) << 8) | (b3 as u32)) >> 16) as u8 == b1 && ((((b0 as u32) << 24) | ((b1 as u32) << 16) | ((b2 as u32) << 8) | (b3 as u32)) >> 8) as u8 == b2 && (((b0 as u32) << 24) | ((b1 as u32) << 16) | ((b2 as u32) << 8) | (b3 as u32)) as u8
            == b3) by (bit_vector);
        assert(b@ =~= u32_be(r));
    }
    r
}

/// One frame of the wire protocol, before serialization: the payload
/// and the header fields that will be written in front of it.
#[derive(Debug)]
pub struct BinaryFrame {
    pub request_id: u64,
    pub packet_id: u32,
    pub last: bool,
    /// The header block; on the wire only when `packet_id` is 1.
    pub headers: Vec<u8>,
    pub payload: Vec<u8>,
}

/// The bytes a frame's header occupies on the wire.
pub open spec fn frame_header_bytes(
    request_id: u64,
    packet_id: u32,
    last: bool,
    headers: Seq<u8>,
) -> Seq<u8> {
    u64_be(request_id) + u32_be(packet_id) + seq![
        if last {
            1u8
        } else {
            0u8
        },
    ] + if packet_id == 1 {
        u32_be(headers.len() as u32) + headers
    } else {
        Seq::<u8>::empty()
    }
}

/// The full wire bytes of a frame.
pub open spec fn frame_wire_bytes(f: &BinaryFrame) -> Seq<u8> {
    frame_header_bytes(f.request_id, f.packet_id, f.last, f.headers@) + f.payload@
}

/// How many bytes the header of a packet occupies.
pub open spec fn spec_header_len(packet_id: u32, headers_len: int) -> int {
    13 + if packet_id == 1 {
        4 + headers_len
    } else {
        0
    }
}

/// Serializes a frame for the wire.
pub fn frame_to_bytes(f: &BinaryFrame) -> (r: Vec<u8>)
    requires
        f.headers@.len() <= u32::MAX,
        spec_header_len(f.packet_id, f.headers@.len() as int) + f.payload@.len() <= usize::MAX,
    ensures
        r@ == frame_wire_bytes(f),
{
    let mut out = u64_to_be_bytes(f.request_id);
    let pid = u32_to_be_bytes(f.packet_id);
    out.push(pid[0]);
    out.push(pid[1]);
    out.push(pid[2]);
    out.push(pid[3]);
    out.push(if f.last {
        1
    } else {
        0
    });
    if f.packet_id == 1 {
        let hl = u32_to_be_bytes(f.headers.len() as u32);
        out.push(hl[0]);
        out.push(hl[1]);
        out.push(hl[2]);
        out.push(hl[3]);
        append_bytes(&mut out, &f.headers);
    }
    append_bytes(&mut out, &f.payload);
    proof {
        assert(out@ =~= frame_wire_bytes(f));
    }
    out
}

/// Appends one byte vector to another.
pub fn append_bytes(dst: &mut Vec<u8>, src: &Vec<u8>)
    requires
        old(dst)@.len() + src@.len() <= usize::MAX,
    ensures
        final(dst)@ == old(dst)@ + src@,
{
    let mut i: usize = 0;
    proof {
        assert(dst@ =~= old(dst)@ + src@.take(0));
    }
    while i < src.len()
        invariant
            0 <= i <= src@.len(),
            old(dst)@.len() + src@.len() <= usize::MAX,
            dst@ == old(dst)@ + src@.take(i as int),
        decreases src@.len() - i,
    {
        dst.push(src[i]);
        proof {
            assert(dst@ =~= old(dst)@ + src@.take(i as int + 1));
        }
        i = i + 1;
    }
    proof {
        assert(old(dst)@ + src@.take(src@.len() as int) =~= old(dst)@ + src@);
    }
}

/// A frame read back from the wire.
#[derive(Debug)]
pub struct ParsedFrame {
    pub request_id: u64,
    pub packet_id: u32,
    pub last: bool,
    pub headers: Vec<u8>,
    pub payload: Vec<u8>,
}

/// Equal big-endian renderings come only from equal numbers.
pub proof fn lemma_u32_be_injective(a: u32, b: u32)
    requires
        u32_be(a) == u32_be(b),
    ensures
        a == b,
{
    assert(u32_be(a)[0] == u32_be(b)[0] && u32_be(a)[1] == u32_be(b)[1] && u32_be(a)[2] == u32_be(
        b,
    )[2] && u32_be(a)[3] == u32_be(b)[3]);
    assert(a == b) by (bit_vector)
        requires
            (a >> 24) as u8 == (b >> 24) as u8,
            (a >> 16) as u8 == (b >> 16) as u8,
            (a >> 8) as u8 == (b >> 8) as u8,
            a as u8 == b as u8,
    ;
}

/// What the wire bytes of a frame look like, position by position:
/// their length, the flag byte, and the two identifier windows.
pub proof fn lemma_frame_bytes_shape(rid: u64, pid: u32, l: bool, h: Seq<u8>, pl: Seq<u8>)
    ensures
        (frame_header_bytes(rid, pid, l, h) + pl).len() == spec_header_len(pid, h.len() as int)
            + pl.len(),
        (frame_header_bytes(rid, pid, l, h) + pl)[12] == (if l {
            1u8
        } else {
            0u8
        }),
        (frame_header_bytes(rid, pid, l, h) + pl).subrange(8, 12) == u32_be(pid),
        pid == 1 ==> (frame_header_bytes(rid, pid, l, h) + pl).subrange(13, 17) == u32_be(
            h.len() as u32,
        ),
{
    let b = frame_header_bytes(rid, pid, l, h) + pl;
    assert(u64_be(rid).len() == 8);
    assert(u32_be(pid).len() == 4);
    assert(b.subrange(8, 12) =~= u32_be(pid));
    if pid == 1 {
        assert(u32_be(h.len() as u32).len() == 4);
        assert(b.subrange(13, 17) =~= u32_be(h.len() as u32));
    }
}

/// The bytes are exactly one frame's serialization, split into its
/// header fields and payload.
pub open spec fn is_frame_wire(
    b: Seq<u8>,
    rid: u64,
    pid: u32,
    l: bool,
    h: Seq<u8>,
    pl: Seq<u8>,
) -> bool {
    b == frame_header_bytes(rid, pid, l, h) + pl
}

/// Reads a frame back from wire bytes.  A parse succeeds exactly on
/// byte strings a frame serializes to — any bytes of frame shape parse
/// back to the frame's fields, and nothing else parses.
pub fn parse_frame(bytes: &Vec<u8>) -> (r: Option<ParsedFrame>)
    ensures
        r matches Some(f) ==> {
            &&& bytes@ == frame_header_bytes(f.request_id, f.packet_id, f.last, f.headers@)
                + f.payload@
            &&& f.packet_id != 1 ==> f.headers@.len() == 0
            &&& f.headers@.len() <= u32::MAX
        },
        forall|rid: u64, pid: u32, l: bool, h: Seq<u8>, pl: Seq<u8>|
            (#[trigger] is_frame_wire(bytes@, rid, pid, l, h, pl) && h.len() <= u32::MAX && (pid
                != 1 ==> h.len() == 0)) ==> r is Some,
{
    if bytes.len() < 13 {
        proof {
            assert forall|rid: u64, pid: u32, l: bool, h: Seq<u8>, pl: Seq<u8>|
                #[trigger] is_frame_wire(bytes@, rid, pid, l, h, pl) && h.len() <= u32::MAX && (
                pid != 1 ==> h.len() == 0) implies false by {
                lemma_frame_bytes_shape(rid, pid, l, h, pl);
            }
        }
        return None;
    }
    let request_id = u64_from_be_bytes(slice_of(bytes, 0, 8));
    let packet_id = u32_from_be_bytes(slice_of(bytes, 8, 12));
    let flag = bytes[12];
    if flag != 0 && flag != 1 {
        proof {
            assert forall|rid: u64, pid: u32, l: bool, h: Seq<u8>, pl: Seq<u8>|
                #[trigger] is_frame_wire(bytes@, rid, pid, l, h, pl) && h.len() <= u32::MAX && (
                pid != 1 ==> h.len() == 0) implies false by {
                lemma_frame_bytes_shape(rid, pid, l, h, pl);
                assert(bytes@[12] == (if l {
                    1u8
                } else {
                    0u8
                }));
            }
        }
        return None;
    }
    let last = flag == 1;
    if packet_id == 1 {
        if bytes.len() < 17 {
            proof {
                assert forall|rid: u64, pid: u32, l: bool, h: Seq<u8>, pl: Seq<u8>|
                    #[trigger] is_frame_wire(bytes@, rid, pid, l, h, pl) && h.len() <= u32::MAX
                        && (pid != 1 ==> h.len() == 0) implies false by {
                    lemma_frame_bytes_shape(rid, pid, l, h, pl);
                    lemma_u32_be_injective(pid, packet_id);
                }
            }
            return None;
        }
        let hlen = u32_from_be_bytes(slice_of(bytes, 13, 17));
        let hlen_usize = hlen as usize;
        if bytes.len() - 17 < hlen_usize {
            proof {
                assert forall|rid: u64, pid: u32, l: bool, h: Seq<u8>, pl: Seq<u8>|
                    #[trigger] is_frame_wire(bytes@, rid, pid, l, h, pl) && h.len() <= u32::MAX
                        && (pid != 1 ==> h.len() == 0) implies false by {
                    lemma_frame_bytes_shape(rid, pid, l, h, pl);
                    lemma_u32_be_injective(pid, packet_id);
                    lemma_u32_be_injective(h.len() as u32, hlen);
                }
            }
            return None;
        }
        let headers = copy_slice(bytes, 17, 17 + hlen_usize);
        let payload = copy_slice(bytes, 17 + hlen_usize, bytes.len());
        let f = ParsedFrame { request_id, packet_id, last, headers, payload };
        proof {
            assert(f.headers@.len() == hlen as int);
            assert(u32_be(f.headers@.len() as u32) == u32_be(hlen));
            assert(bytes@ =~= frame_header_bytes(f.request_id, f.packet_id, f.last, f.headers@)
                + f.payload@);
        }
        Some(f)
    } else {
        let headers: Vec<u8> = Vec::new();
        let payload = copy_slice(bytes, 13, bytes.len());
        let f = ParsedFrame { request_id, packet_id, last, headers, payload };
        proof {
            assert(bytes@ =~= frame_header_bytes(f.request_id, f.packet_id, f.last, f.headers@)
                + f.payload@);
        }
        Some(f)
    }
}

/// Borrows a window of a byte vector.
fn slice_of(v: &Vec<u8>, from: usize, to: usize) -> (r: &[u8])
    requires
        from <= to <= v@.len(),
    ensures
        r@ == v@.subrange(from as int, to as int),
{
    vstd::slice::slice_subrange(v.as_slice(), from, to)
}

/// Copies a window of a byte vector.
pub fn copy_slice(v: &Vec<u8>, from: usize, to: usize) -> (r: Vec<u8>)
    requires
        from <= to <= v@.len(),
    ensures
        r@ == v@.subrange(from as int, to as int),
{
    let mut out: Vec<u8> = Vec::new();
    let mut i: usize = from;
    while i < to
        invariant
            from <= i <= to <= v@.len(),
            out@ == v@.subrange(from as int, i as int),
        decreases to - i,
    {
        out.push(v[i]);
        proof {
            assert(out@ =~= v@.subrange(from as int, i as int + 1));
        }
        i = i + 1;
    }
    out
}

/// The payloads of a frame sequence, concatenated in order.
pub open spec fn frames_payload_concat(fs: Seq<BinaryFrame>) -> Seq<u8>
    decreases fs.len(),
{
    if fs.len() == 0 {
        Seq::empty()
    } else {
        frames_payload_concat(fs.drop_last()) + fs.last().payload@
    }
}

/// The contents of a chunk sequence, concatenated in order.
pub open spec fn chunks_concat(cs: Seq<Vec<u8>>) -> Seq<u8>
    decreases cs.len(),
{
    if cs.len() == 0 {
        Seq::empty()
    } else {
        chunks_concat(cs.drop_last()) + cs.last()@
    }
}


/// The windows of a payload selected by slices, concatenated in order.
pub open spec fn slices_content(p: Seq<u8>, slices: Seq<(usize, usize)>) -> Seq<u8>
    decreases slices.len(),
{
    if slices.len() == 0 {
        Seq::empty()
    } else {
        slices_content(p, slices.drop_last()) + p.subrange(
            slices.last().0 as int,
            slices.last().1 as int,
        )
    }
}

/// Cuts one frame window down to the requested ranges: the returned
/// slices, in order, carry exactly the window's bytes that fall in a
/// range — the window's [`restriction`].
pub fn split_window_by_ranges(
    payload: &Vec<u8>,
    packet_start: u64,
    ranges: &Vec<ByteRange>,
) -> (r: Vec<(usize, usize)>)
    requires
        ranges_sorted_disjoint(ranges@),
        packet_start as int + payload@.len() <= u64::MAX,
    ensures
        slices_content(payload@, r@) == restriction(payload@, packet_start as int, ranges@),
        forall|i: int| 0 <= i < r@.len() ==> (#[trigger] r@[i]).0 < r@[i].1 <= payload@.len(),
{
    let ps: u64 = packet_start;
    let plen: usize = payload.len();
    let pe: u64 = packet_start + (plen as u64);
    let mut out: Vec<(usize, usize)> = Vec::new();
    let mut covered: u64 = ps;
    let mut k: usize = 0;
    proof {
        assert(payload@.take(0) =~= Seq::<u8>::empty());
    }
    while k < ranges.len()
        invariant
            ps <= covered <= pe,
            pe == ps as int + payload@.len(),
            plen == payload@.len(),
            ranges_sorted_disjoint(ranges@),
            0 <= k <= ranges@.len(),
            slices_content(payload@, out@) == restriction(
                payload@.take((covered - ps) as int),
                ps as int,
                ranges@,
            ),
            forall|j: int, i: int|
                0 <= j < k && covered <= i < pe ==> !in_range(&(#[trigger] ranges@[j]), i),
            forall|j: int|
                k <= j < ranges@.len() ==> covered as int <= spec_max(
                    range_start(&(#[trigger] ranges@[j])),
                    ps as int,
                ),
            forall|i: int| 0 <= i < out@.len() ==> (#[trigger] out@[i]).0 < out@[i].1
                <= payload@.len(),
        decreases ranges@.len() - k,
    {
        let r = ranges[k];
        let cs: u64 = match r.start {
            Some(s) => if s > ps {
                s
            } else {
                ps
            },
            None => ps,
        };
        let ce: u64 = match r.end {
            Some(e) => if e < pe {
                e
            } else {
                pe
            },
            None => pe,
        };
        if cs < ce {
            proof {
                assert(covered <= cs) by {
                    assert(covered as int <= spec_max(range_start(&ranges@[k as int]), ps as int));
                }
                let a = payload@.take((covered - ps) as int);
                let gap = payload@.subrange((covered - ps) as int, (cs - ps) as int);
                let slice_seq = payload@.subrange((cs - ps) as int, (ce - ps) as int);
                assert(payload@.take((cs - ps) as int) =~= a + gap);
                assert(payload@.take((ce - ps) as int) =~= payload@.take((cs - ps) as int)
                    + slice_seq);
                assert forall|i: int| covered <= i < cs implies !in_ranges(ranges@, i) by {
                    if in_ranges(ranges@, i) {
                        let j = choose|j: int|
                            0 <= j < ranges@.len() && in_range(&ranges@[j], i);
                        if j < k {
                            assert(!in_range(&ranges@[j], i));
                        } else if j == k {
                            assert(range_start(&ranges@[j]) <= i);
                            assert(i < cs);
                            assert(cs as int == spec_max(range_start(&r), ps as int));
                            assert(i >= ps);
                            assert(false);
                        } else {
                            assert(range_precedes(ranges@[k as int], ranges@[j]));
                            assert(range_start(&ranges@[j]) <= i);
                            assert(ranges@[k as int].end matches Some(e) && i >= e as int);
                            assert(i < ce);
                            assert(false);
                        }
                    }
                }
                lemma_restriction_empty(gap, covered as int, ranges@);
                lemma_restriction_concat(a, gap, ps as int, ranges@);
                assert forall|i: int| cs <= i < ce implies in_ranges(ranges@, i) by {
                    assert(in_range(&ranges@[k as int], i));
                }
                lemma_restriction_full(slice_seq, cs as int, ranges@);
                lemma_restriction_concat(a + gap, slice_seq, ps as int, ranges@);
                assert(restriction(payload@.take((ce - ps) as int), ps as int, ranges@)
                    =~= restriction(payload@.take((covered - ps) as int), ps as int, ranges@)
                    + slice_seq);
            }
            proof {
                assert(cs < ce && ce <= pe);
                assert(ce - ps <= plen);
            }
            let a_idx: usize = (cs - ps) as usize;
            let b_idx: usize = (ce - ps) as usize;
            let ghost out0 = out@;
            out.push((a_idx, b_idx));
            proof {
                assert(out@.drop_last() =~= out0);
                assert(a_idx as int == cs - ps && b_idx as int == ce - ps);
                assert(slices_content(payload@, out@) == slices_content(payload@, out0)
                    + payload@.subrange(a_idx as int, b_idx as int));
            }
            covered = ce;
            proof {
                assert forall|j: int| k + 1 <= j < ranges@.len() implies covered as int <= spec_max(
                    range_start(&(#[trigger] ranges@[j])),
                    ps as int,
                ) by {
                    assert(range_precedes(ranges@[k as int], ranges@[j]));
                }
            }
        } else {
            proof {
                assert forall|i: int| covered <= i < pe implies !in_range(&ranges@[k as int], i) by {
                    if in_range(&ranges@[k as int], i) {
                        assert(range_start(&ranges@[k as int]) <= i);
                        assert(before_range_end(&ranges@[k as int], i));
                        assert(i >= cs);
                        assert(i < ce);
                        assert(false);
                    }
                }
                assert forall|j: int| k + 1 <= j < ranges@.len() implies covered as int <= spec_max(
                    range_start(&(#[trigger] ranges@[j])),
                    ps as int,
                ) by {
                    assert(range_precedes(ranges@[k as int], ranges@[j]));
                    assert(covered as int <= spec_max(range_start(&ranges@[k as int]), ps as int));
                }
            }
        }
        k = k + 1;
    }
    proof {
        let a = payload@.take((covered - ps) as int);
        let tail = payload@.subrange((covered - ps) as int, payload@.len() as int);
        assert(payload@ =~= a + tail);
        assert forall|i: int| covered <= i < pe implies !in_ranges(ranges@, i) by {
            if in_ranges(ranges@, i) {
                let j = choose|j: int| 0 <= j < ranges@.len() && in_range(&ranges@[j], i);
                assert(!in_range(&ranges@[j], i));
            }
        }
        lemma_restriction_empty(tail, covered as int, ranges@);
        lemma_restriction_concat(a, tail, ps as int, ranges@);
        assert(restriction(payload@, ps as int, ranges@) =~= restriction(a, ps as int, ranges@));
    }
    out
}

/// The larger of two numbers.
pub open spec fn spec_max(a: int, b: int) -> int {
    if a > b {
        a
    } else {
        b
    }
}

/// The smaller of two numbers.
pub open spec fn spec_min_int(a: int, b: int) -> int {
    if a < b {
        a
    } else {
        b
    }
}

/// The frame fits the configured bound on the wire, and carries the
/// request's header block exactly when it is packet 1.
pub open spec fn frame_sized(f: &BinaryFrame, headers: Seq<u8>, max: int) -> bool {
    &&& spec_header_len(f.packet_id, f.headers@.len() as int) + f.payload@.len() <= max
    &&& (f.packet_id == 1 ==> f.headers@ == headers)
    &&& (f.packet_id != 1 ==> f.headers@.len() == 0)
}


/// Splits a stream of chunks into bounded frames.
///
/// Bytes pushed in are buffered; whenever more than one frame's payload
/// capacity is buffered, a full frame leaves, oldest bytes first, so a
/// chunk that overflows a frame carries its left-over into the next.
/// Finishing flushes the rest into a final frame that alone bears the
/// last flag.  With ranges set, each frame window is cut down to the
/// requested stretches before anything is emitted.
pub struct StreamEncoder {
    pub request_id: u64,
    /// The serialized header block of the request, sent with packet 1.
    pub headers: Vec<u8>,
    /// Hard bound on a frame's wire size, header included.
    pub max_packet_size: usize,
    /// The byte windows requested, if delivery is range-limited.
    pub ranges: Option<Vec<ByteRange>>,
    /// The packet identifier the next emitted frame will carry.
    pub packet_id: u32,
    /// How many stream bytes have been consumed into emitted windows.
    pub consumed_count: u64,
    /// Buffered bytes not yet framed.
    pub buf: Vec<u8>,
    pub finished: bool,
    /// Every byte ever pushed.
    pub pushed: Ghost<Seq<u8>>,
    /// The bytes consumed into windows so far.
    pub consumed: Ghost<Seq<u8>>,
    /// The payload bytes emitted so far, in frame order.
    pub emitted: Ghost<Seq<u8>>,
}

/// What the encoder owes its consumer: everything consumed, or its
/// restriction to the requested ranges.
pub open spec fn enc_target(ranges: &Option<Vec<ByteRange>>, consumed: Seq<u8>) -> Seq<u8> {
    match ranges {
        Some(rs) => restriction(consumed, 0, rs@),
        None => consumed,
    }
}

/// The payload capacity of the next frame.
pub open spec fn spec_capacity(e: &StreamEncoder) -> int {
    e.max_packet_size - spec_header_len(e.packet_id, e.headers@.len() as int)
}

/// The encoder's invariant: the header block leaves room for payload,
/// the buffered and consumed bytes partition everything pushed, and
/// the emitted payloads are exactly the target of the consumed bytes.
pub open spec fn enc_wf(e: &StreamEncoder) -> bool {
    &&& e.headers@.len() + 17 < e.max_packet_size
    &&& e.headers@.len() <= u32::MAX
    &&& e.packet_id >= 1
    &&& e.buf@.len() + spec_header_len(e.packet_id, e.headers@.len() as int)
        <= e.max_packet_size
    &&& e.pushed@.len() <= u64::MAX
    &&& e.pushed@ == e.consumed@ + e.buf@
    &&& e.consumed_count as int == e.consumed@.len()
    &&& e.emitted@ == enc_target(&e.ranges, e.consumed@)
    &&& (e.ranges matches Some(rs) ==> ranges_sorted_disjoint(rs@))
}

impl StreamEncoder {
    /// An encoder for one request's stream.
    pub fn new(
        request_id: u64,
        headers: Vec<u8>,
        max_packet_size: usize,
        ranges: Option<Vec<ByteRange>>,
    ) -> (r: StreamEncoder)
        requires
            headers@.len() + 17 < max_packet_size,
            headers@.len() <= u32::MAX,
            ranges matches Some(rs) ==> ranges_sorted_disjoint(rs@),
        ensures
            enc_wf(&r),
            !r.finished,
            r.request_id == request_id,
            r.headers@ == headers@,
            r.max_packet_size == max_packet_size,
            r.ranges == ranges,
            r.packet_id == 1,
            r.pushed@ == Seq::<u8>::empty(),
            r.emitted@ == Seq::<u8>::empty(),
    {
        let r = StreamEncoder {
            request_id,
            headers,
            max_packet_size,
            ranges,
            packet_id: 1,
            consumed_count: 0,
            buf: Vec::new(),
            finished: false,
            pushed: Ghost(Seq::empty()),
            consumed: Ghost(Seq::empty()),
            emitted: Ghost(Seq::empty()),
        };
        proof {
            assert(r.pushed@ =~= r.consumed@ + r.buf@);
            match &r.ranges {
                Some(rs) => {
                    assert(r.emitted@ =~= restriction(r.consumed@, 0, rs@));
                },
                None => {},
            }
        }
        r
    }

    /// The payload capacity of the next frame.
    pub fn capacity(&self) -> (r: usize)
        requires
            self.headers@.len() + 17 < self.max_packet_size,
            self.packet_id >= 1,
        ensures
            r as int == spec_capacity(self),
            r >= 1,
    {
        if self.packet_id == 1 {
            self.max_packet_size - 13 - 4 - self.headers.len()
        } else {
            self.max_packet_size - 13
        }
    }

    /// Emits one conceptual frame window: as one frame, or cut to the
    /// requested ranges as one sub-frame per overlapping range, with
    /// the packet identifier advancing per emitted sub-frame and the
    /// last flag riding only the window's final sub-frame.
    pub fn emit_window(&mut self, window: Vec<u8>, last: bool, out: &mut Vec<BinaryFrame>)
        requires
            old(self).headers@.len() + 17 < old(self).max_packet_size,
            old(self).headers@.len() <= u32::MAX,
            old(self).packet_id >= 1,
            old(self).consumed_count as int == old(self).consumed@.len(),
            old(self).emitted@ == enc_target(&old(self).ranges, old(self).consumed@),
            old(self).ranges matches Some(rs) ==> ranges_sorted_disjoint(rs@),
            old(self).consumed@.len() + window@.len() <= u64::MAX,
            window@.len() + spec_header_len(
                old(self).packet_id,
                old(self).headers@.len() as int,
            ) <= old(self).max_packet_size,
        ensures
            final(self).headers@ == old(self).headers@,
            final(self).max_packet_size == old(self).max_packet_size,
            final(self).request_id == old(self).request_id,
            final(self).ranges == old(self).ranges,
            final(self).buf@ == old(self).buf@,
            final(self).finished == old(self).finished,
            final(self).pushed@ == old(self).pushed@,
            final(self).packet_id >= 1,
            final(self).consumed@ == old(self).consumed@ + window@,
            final(self).consumed_count as int == final(self).consumed@.len(),
            final(self).emitted@ == enc_target(&final(self).ranges, final(self).consumed@),
            final(out)@.len() >= old(out)@.len(),
            final(out)@.take(old(out)@.len() as int) == old(out)@,
            final(self).emitted@ == old(self).emitted@ + frames_payload_concat(
                final(out)@.skip(old(out)@.len() as int),
            ),
            forall|i: int|
                old(out)@.len() <= i < final(out)@.len() ==> (#[trigger] final(out)@[i]).request_id
                    == old(self).request_id,
            forall|i: int|
                old(out)@.len() <= i < final(out)@.len() - 1 ==> !(#[trigger] final(out)@[i]).last,
            final(out)@.len() > old(out)@.len() ==> final(out)@.last().last == last,
            old(self).ranges is None ==> (final(out)@.len() == old(out)@.len() + 1
                && final(out)@.last().payload@ == window@ && final(out)@.last().packet_id == old(self).packet_id),
            final(self).packet_id as int == spec_min_int(
                old(self).packet_id + (final(out)@.len() - old(out)@.len()),
                u32::MAX as int,
            ),
            forall|i: int|
                old(out)@.len() <= i < final(out)@.len() ==> (#[trigger] final(out)@[i]).packet_id as int
                    == spec_min_int(
                    old(self).packet_id + (i - old(out)@.len()),
                    u32::MAX as int,
                ),
            forall|i: int|
                old(out)@.len() <= i < final(out)@.len() ==> frame_sized(
                    &(#[trigger] final(out)@[i]),
                    old(self).headers@,
                    old(self).max_packet_size as int,
                ),
    {
        let ghost base_consumed = self.consumed@;
        let ghost w = window@;
        let ghost out0 = out@;
        let window_len = window.len();
        let start_count = self.consumed_count;
        let is_ranged = match &self.ranges {
            Some(_) => true,
            None => false,
        };
        if is_ranged {
            let slices = match &self.ranges {
                Some(rs) => split_window_by_ranges(&window, start_count, rs),
                None => Vec::new(),
            };
            let n = slices.len();
            let mut i: usize = 0;
            while i < n
                invariant
                    0 <= i <= n,
                    n == slices@.len(),
                    w == window@,
                    start_count == old(self).consumed_count,
                    slices_content(w, slices@) == restriction(
                        w,
                        start_count as int,
                        old(self).ranges->Some_0@,
                    ),
                    self.headers@ == old(self).headers@,
                    self.max_packet_size == old(self).max_packet_size,
                    self.request_id == old(self).request_id,
                    self.ranges == old(self).ranges,
                    self.buf@ == old(self).buf@,
                    self.finished == old(self).finished,
                    self.pushed@ == old(self).pushed@,
                    self.consumed@ == old(self).consumed@,
                    self.consumed_count == old(self).consumed_count,
                    self.emitted@ == old(self).emitted@,
                    self.packet_id >= 1,
                    old(self).packet_id >= 1,
                    self.packet_id as int == spec_min_int(
                        old(self).packet_id + i,
                        u32::MAX as int,
                    ),
                    w.len() + spec_header_len(
                        old(self).packet_id,
                        old(self).headers@.len() as int,
                    ) <= old(self).max_packet_size,
                    forall|k: int|
                        out0.len() <= k < out@.len() ==> (#[trigger] out@[k]).packet_id as int
                            == spec_min_int(
                            old(self).packet_id + (k - out0.len()),
                            u32::MAX as int,
                        ),
                    forall|k: int|
                        out0.len() <= k < out@.len() ==> frame_sized(
                            &(#[trigger] out@[k]),
                            old(self).headers@,
                            old(self).max_packet_size as int,
                        ),
                    forall|j: int| 0 <= j < slices@.len() ==> (#[trigger] slices@[j]).0
                        < slices@[j].1 <= w.len(),
                    out@.len() == out0.len() + i,
                    out@.take(out0.len() as int) == out0,
                    frames_payload_concat(out@.skip(out0.len() as int)) == slices_content(
                        w,
                        slices@.take(i as int),
                    ),
                    forall|k: int| out0.len() <= k < out@.len() ==> (#[trigger] out@[k]).request_id
                        == old(self).request_id,
                    forall|k: int| out0.len() <= k < out@.len() ==> ((#[trigger] out@[k]).last == (
                    last && k == out0.len() + n - 1)),
                decreases n - i,
            {
                let a = slices[i].0;
                let b = slices[i].1;
                proof {
                    if self.packet_id == 1 {
                        assert(old(self).packet_id == 1 && i == 0);
                    }
                }
                let hdrs: Vec<u8> = if self.packet_id == 1 {
                    copy_slice(&self.headers, 0, self.headers.len())
                } else {
                    Vec::new()
                };
                proof {
                    assert(hdrs@ =~= (if self.packet_id == 1 {
                        self.headers@
                    } else {
                        Seq::<u8>::empty()
                    }));
                }
                let f = BinaryFrame {
                    request_id: self.request_id,
                    packet_id: self.packet_id,
                    last: last && i == n - 1,
                    headers: hdrs,
                    payload: copy_slice(&window, a, b),
                };
                let ghost out_prev = out@;
                out.push(f);
                if self.packet_id < u32::MAX {
                    self.packet_id = self.packet_id + 1;
                }
                proof {
                    assert(out@.take(out0.len() as int) =~= out0);
                    assert(out@.skip(out0.len() as int) =~= out_prev.skip(out0.len() as int).push(
                        out@.last(),
                    ));
                    assert(out@.skip(out0.len() as int).drop_last() =~= out_prev.skip(
                        out0.len() as int,
                    ));
                    assert(out@.last().payload@ == w.subrange(
                        slices@[i as int].0 as int,
                        slices@[i as int].1 as int,
                    ));
                    assert(slices@.take(i as int + 1).drop_last() =~= slices@.take(i as int));
                    assert(slices@.take(i as int + 1).last() == slices@[i as int]);
                    assert(frames_payload_concat(out@.skip(out0.len() as int))
                        == frames_payload_concat(out_prev.skip(out0.len() as int))
                        + out@.last().payload@);
                    assert(slices_content(w, slices@.take(i as int + 1)) == slices_content(
                        w,
                        slices@.take(i as int),
                    ) + w.subrange(slices@[i as int].0 as int, slices@[i as int].1 as int));
                    assert(out@.last().payload@.len() <= w.len());
                    assert(frame_sized(
                        &out@.last(),
                        old(self).headers@,
                        old(self).max_packet_size as int,
                    ));
                }
                i = i + 1;
            }
            proof {
                assert(slices@.take(n as int) =~= slices@);
                let rs = self.ranges->Some_0;
                lemma_restriction_concat(base_consumed, w, 0, rs@);
            }
            self.consumed = Ghost(base_consumed + w);
            self.consumed_count = self.consumed_count + (window_len as u64);
            self.emitted = Ghost(self.emitted@ + slices_content(w, slices@));
            proof {
                let rs = self.ranges->Some_0;
                assert(self.emitted@ =~= restriction(self.consumed@, 0, rs@));
            }
        } else {
            let hdrs: Vec<u8> = if self.packet_id == 1 {
                copy_slice(&self.headers, 0, self.headers.len())
            } else {
                Vec::new()
            };
            proof {
                assert(hdrs@ =~= (if self.packet_id == 1 {
                    self.headers@
                } else {
                    Seq::<u8>::empty()
                }));
            }
            let f = BinaryFrame {
                request_id: self.request_id,
                packet_id: self.packet_id,
                last,
                headers: hdrs,
                payload: window,
            };
            out.push(f);
            if self.packet_id < u32::MAX {
                self.packet_id = self.packet_id + 1;
            }
            self.consumed = Ghost(base_consumed + w);
            self.consumed_count = self.consumed_count + (window_len as u64);
            self.emitted = Ghost(self.emitted@ + w);
            proof {
                assert(out@.take(out0.len() as int) =~= out0);
                let single = out@.skip(out0.len() as int);
                assert(single =~= seq![out@.last()]);
                assert(single.drop_last() =~= Seq::<BinaryFrame>::empty());
                assert(frames_payload_concat(single.drop_last()) == Seq::<u8>::empty());
                assert(frames_payload_concat(single) == frames_payload_concat(single.drop_last())
                    + single.last().payload@);
                assert(Seq::<u8>::empty() + single.last().payload@ =~= single.last().payload@);
                assert(out@.last().payload@ == w);
                assert(frame_sized(
                    &out@.last(),
                    old(self).headers@,
                    old(self).max_packet_size as int,
                ));
            }
        }
    }

    /// Accepts the next chunk of the stream, returning every frame it
    /// completed.  None of them bears the last flag.
    pub fn push_chunk(&mut self, data: &Vec<u8>) -> (out: Vec<BinaryFrame>)
        requires
            enc_wf(old(self)),
            !old(self).finished,
            old(self).buf@.len() + data@.len() <= usize::MAX,
            old(self).pushed@.len() + data@.len() <= u64::MAX,
        ensures
            enc_wf(final(self)),
            !final(self).finished,
            final(self).headers@ == old(self).headers@,
            final(self).max_packet_size == old(self).max_packet_size,
            final(self).request_id == old(self).request_id,
            final(self).ranges == old(self).ranges,
            final(self).pushed@ == old(self).pushed@ + data@,
            final(self).emitted@ == old(self).emitted@ + frames_payload_concat(out@),
            forall|i: int| 0 <= i < out@.len() ==> !(#[trigger] out@[i]).last,
            forall|i: int| 0 <= i < out@.len() ==> (#[trigger] out@[i]).request_id == old(
                self,
            ).request_id,
            final(self).packet_id as int == spec_min_int(
                old(self).packet_id + out@.len(),
                u32::MAX as int,
            ),
            forall|i: int| 0 <= i < out@.len() ==> (#[trigger] out@[i]).packet_id as int
                == spec_min_int(old(self).packet_id + i, u32::MAX as int),
            forall|i: int| 0 <= i < out@.len() ==> frame_sized(
                &(#[trigger] out@[i]),
                old(self).headers@,
                old(self).max_packet_size as int,
            ),
    {
        append_bytes(&mut self.buf, data);
        proof {
            self.pushed@ = self.pushed@ + data@;
        }
        let mut out: Vec<BinaryFrame> = Vec::new();
        proof {
            assert(self.pushed@ =~= self.consumed@ + self.buf@);
            assert(frames_payload_concat(out@) =~= Seq::<u8>::empty());
            assert(old(self).emitted@ + Seq::<u8>::empty() =~= old(self).emitted@);
        }
        loop
            invariant
                self.headers@.len() + 17 < self.max_packet_size,
                self.headers@.len() <= u32::MAX,
                self.packet_id >= 1,
                self.pushed@ == self.consumed@ + self.buf@,
                self.consumed_count as int == self.consumed@.len(),
                self.emitted@ == enc_target(&self.ranges, self.consumed@),
                self.ranges matches Some(rs) ==> ranges_sorted_disjoint(rs@),
                self.headers@ == old(self).headers@,
                self.max_packet_size == old(self).max_packet_size,
                self.request_id == old(self).request_id,
                self.ranges == old(self).ranges,
                self.finished == old(self).finished,
                self.pushed@ == old(self).pushed@ + data@,
                self.pushed@.len() <= u64::MAX,
                self.emitted@ == old(self).emitted@ + frames_payload_concat(out@),
                forall|i: int| 0 <= i < out@.len() ==> !(#[trigger] out@[i]).last,
                forall|i: int| 0 <= i < out@.len() ==> (#[trigger] out@[i]).request_id == old(
                    self,
                ).request_id,
                self.packet_id as int == spec_min_int(
                    old(self).packet_id + out@.len(),
                    u32::MAX as int,
                ),
                forall|i: int| 0 <= i < out@.len() ==> (#[trigger] out@[i]).packet_id as int
                    == spec_min_int(old(self).packet_id + i, u32::MAX as int),
                forall|i: int| 0 <= i < out@.len() ==> frame_sized(
                    &(#[trigger] out@[i]),
                    old(self).headers@,
                    old(self).max_packet_size as int,
                ),
            ensures
                self.buf@.len() as int <= spec_capacity(self),
            decreases self.buf@.len(),
        {
            let cap = self.capacity();
            if self.buf.len() <= cap {
                break;
            }
            let window = copy_slice(&self.buf, 0, cap);
            let rest = copy_slice(&self.buf, cap, self.buf.len());
            proof {
                assert(self.buf@ =~= window@ + rest@);
            }
            self.buf = rest;
            let ghost out_before = out@;
            let ghost emitted_before = self.emitted@;
            proof {
                assert(self.pushed@ =~= (self.consumed@ + window@) + self.buf@);
            }
            self.emit_window(window, false, &mut out);
            proof {
                lemma_frames_payload_concat_split(out@, out_before.len() as int);
                assert(out@.take(out_before.len() as int) == out_before);
                assert(self.emitted@ =~= old(self).emitted@ + frames_payload_concat(out@));
                assert forall|i: int| 0 <= i < out@.len() implies !(#[trigger] out@[i]).last by {
                    if i < out_before.len() {
                        assert(out@[i] == out_before[i]);
                    } else if i < out@.len() - 1 {
                    } else {
                        assert(out@.last().last == false);
                    }
                }
                assert forall|i: int| 0 <= i < out@.len() implies (#[trigger] out@[i]).request_id
                    == old(self).request_id by {
                    if i < out_before.len() {
                        assert(out@[i] == out_before[i]);
                    }
                }
                assert forall|i: int| 0 <= i < out@.len() implies (#[trigger] out@[i]).packet_id
                    as int == spec_min_int(old(self).packet_id + i, u32::MAX as int) by {
                    if i < out_before.len() {
                        assert(out@[i] == out_before[i]);
                    }
                }
                assert forall|i: int| 0 <= i < out@.len() implies frame_sized(
                    &(#[trigger] out@[i]),
                    old(self).headers@,
                    old(self).max_packet_size as int,
                ) by {
                    if i < out_before.len() {
                        assert(out@[i] == out_before[i]);
                    }
                }
            }
        }
        out
    }

    /// Flushes whatever is buffered as the stream's final window; only
    /// the frame closing the stream bears the last flag.
    pub fn finish(&mut self) -> (out: Vec<BinaryFrame>)
        requires
            enc_wf(old(self)),
            !old(self).finished,
        ensures
            enc_wf(final(self)),
            final(self).finished,
            final(self).pushed@ == old(self).pushed@,
            final(self).consumed@ == old(self).pushed@,
            final(self).emitted@ == enc_target(&old(self).ranges, old(self).pushed@),
            final(self).emitted@ == old(self).emitted@ + frames_payload_concat(out@),
            forall|i: int| 0 <= i < out@.len() ==> (#[trigger] out@[i]).request_id == old(
                self,
            ).request_id,
            forall|i: int| 0 <= i < out@.len() - 1 ==> !(#[trigger] out@[i]).last,
            out@.len() > 0 ==> out@.last().last,
            old(self).ranges is None ==> (out@.len() == 1 && out@[0].last && out@[0].payload@
                == old(self).buf@),
            forall|i: int| 0 <= i < out@.len() ==> (#[trigger] out@[i]).packet_id as int
                == spec_min_int(old(self).packet_id + i, u32::MAX as int),
            forall|i: int| 0 <= i < out@.len() ==> frame_sized(
                &(#[trigger] out@[i]),
                old(self).headers@,
                old(self).max_packet_size as int,
            ),
    {
        let mut window: Vec<u8> = Vec::new();
        core::mem::swap(&mut window, &mut self.buf);
        let mut out: Vec<BinaryFrame> = Vec::new();
        proof {
            assert(self.pushed@ =~= self.consumed@ + window@);
        }
        self.emit_window(window, true, &mut out);
        self.finished = true;
        proof {
            assert(out@.skip(0) =~= out@);
            assert(self.consumed@ =~= old(self).pushed@);
            assert(self.pushed@ =~= self.consumed@ + self.buf@);
        }
        out
    }
}

/// Concatenated frame payloads split at an index.
pub proof fn lemma_frames_payload_concat_split(fs: Seq<BinaryFrame>, k: int)
    requires
        0 <= k <= fs.len(),
    ensures
        frames_payload_concat(fs) == frames_payload_concat(fs.take(k)) + frames_payload_concat(
            fs.skip(k),
        ),
    decreases fs.len() - k,
{
    if k == fs.len() {
        assert(fs.take(k) =~= fs);
        assert(frames_payload_concat(fs.skip(k)) =~= Seq::<u8>::empty());
        assert(frames_payload_concat(fs.take(k)) + Seq::<u8>::empty() =~= frames_payload_concat(
            fs,
        ));
    } else {
        lemma_frames_payload_concat_split(fs.drop_last(), k);
        assert(fs.drop_last().take(k) =~= fs.take(k));
        assert(fs.skip(k).drop_last() =~= fs.drop_last().skip(k));
        assert(fs.skip(k).last() == fs.last());
        assert(frames_payload_concat(fs.take(k)) + frames_payload_concat(fs.skip(k))
            =~= frames_payload_concat(fs.take(k)) + frames_payload_concat(fs.drop_last().skip(k))
            + fs.last().payload@);
    }
}


/// A chunk list's prefix content grows chunk by chunk.
pub proof fn lemma_chunks_concat_take(cs: Seq<Vec<u8>>, i: int)
    requires
        0 <= i < cs.len(),
    ensures
        chunks_concat(cs.take(i + 1)) == chunks_concat(cs.take(i)) + cs[i]@,
{
    assert(cs.take(i + 1).drop_last() =~= cs.take(i));
    assert(cs.take(i + 1).last() == cs[i]);
}

/// A prefix of the stream is never longer than the whole stream.
pub proof fn lemma_chunks_concat_prefix_len(cs: Seq<Vec<u8>>, i: int)
    requires
        0 <= i <= cs.len(),
    ensures
        chunks_concat(cs.take(i)).len() <= chunks_concat(cs).len(),
    decreases cs.len() - i,
{
    if i == cs.len() {
        assert(cs.take(i) =~= cs);
    } else {
        lemma_chunks_concat_take(cs, i);
        lemma_chunks_concat_prefix_len(cs, i + 1);
    }
}

/// Frames a whole stream of chunks: the frames' payloads, in order,
/// carry exactly the stream's bytes, and the last frame — and only it —
/// bears the last flag.
pub fn encode_chunks(
    request_id: u64,
    headers: Vec<u8>,
    max_packet_size: usize,
    chunks: &Vec<Vec<u8>>,
) -> (r: Vec<BinaryFrame>)
    requires
        headers@.len() + 17 < max_packet_size,
        headers@.len() <= u32::MAX,
        chunks_concat(chunks@).len() <= u64::MAX,
        forall|i: int| 0 <= i < chunks@.len() ==> (#[trigger] chunks@[i])@.len() + max_packet_size
            <= usize::MAX,
    ensures
        frames_payload_concat(r@) == chunks_concat(chunks@),
        r@.len() >= 1,
        forall|i: int| 0 <= i < r@.len() - 1 ==> !(#[trigger] r@[i]).last,
        r@.last().last,
        forall|i: int| 0 <= i < r@.len() ==> (#[trigger] r@[i]).request_id == request_id,
        forall|i: int| 0 <= i < r@.len() ==> (#[trigger] r@[i]).packet_id as int == spec_min_int(
            i + 1,
            u32::MAX as int,
        ),
        forall|i: int| 0 <= i < r@.len() ==> frame_sized(
            &(#[trigger] r@[i]),
            headers@,
            max_packet_size as int,
        ),
{
    let ghost headers_view = headers@;
    let mut enc = StreamEncoder::new(request_id, headers, max_packet_size, None);
    let mut r: Vec<BinaryFrame> = Vec::new();
    let mut i: usize = 0;
    proof {
        assert(chunks@.take(0) =~= Seq::<Vec<u8>>::empty());
        assert(enc.pushed@ =~= chunks_concat(chunks@.take(0)));
        assert(frames_payload_concat(r@) =~= enc.emitted@);
    }
    while i < chunks.len()
        invariant
            0 <= i <= chunks@.len(),
            enc_wf(&enc),
            !enc.finished,
            enc.ranges is None,
            enc.request_id == request_id,
            enc.max_packet_size == max_packet_size,
            enc.headers@ == headers_view,
            enc.packet_id as int == spec_min_int(r@.len() as int + 1, u32::MAX as int),
            forall|j: int| 0 <= j < r@.len() ==> (#[trigger] r@[j]).packet_id as int
                == spec_min_int(j + 1, u32::MAX as int),
            forall|j: int| 0 <= j < r@.len() ==> frame_sized(
                &(#[trigger] r@[j]),
                headers_view,
                max_packet_size as int,
            ),
            enc.pushed@ == chunks_concat(chunks@.take(i as int)),
            frames_payload_concat(r@) == enc.emitted@,
            chunks_concat(chunks@).len() <= u64::MAX,
            forall|j: int| 0 <= j < chunks@.len() ==> (#[trigger] chunks@[j])@.len()
                + max_packet_size <= usize::MAX,
            forall|j: int| 0 <= j < r@.len() ==> !(#[trigger] r@[j]).last,
            forall|j: int| 0 <= j < r@.len() ==> (#[trigger] r@[j]).request_id == request_id,
        decreases chunks@.len() - i,
    {
        proof {
            lemma_chunks_concat_take(chunks@, i as int);
            lemma_chunks_concat_prefix_len(chunks@, i as int + 1);
        }
        let ghost r0 = r@;
        let ghost pid0 = enc.packet_id;
        let frames = enc.push_chunk(&chunks[i]);
        let ghost frames_view = frames@;
        append_frames(&mut r, frames);
        proof {
            lemma_frames_payload_concat_split(r@, r0.len() as int);
            assert(r@.take(r0.len() as int) =~= r0);
            assert(r@.skip(r0.len() as int) =~= frames_view);
            assert forall|j: int| 0 <= j < r@.len() implies (#[trigger] r@[j]).packet_id as int
                == spec_min_int(j + 1, u32::MAX as int) by {
                if j < r0.len() {
                    assert(r@[j] == r0[j]);
                } else {
                    assert(r@[j] == frames_view[j - r0.len()]);
                }
            }
            assert forall|j: int| 0 <= j < r@.len() implies frame_sized(
                &(#[trigger] r@[j]),
                headers_view,
                max_packet_size as int,
            ) by {
                if j < r0.len() {
                    assert(r@[j] == r0[j]);
                } else {
                    assert(r@[j] == frames_view[j - r0.len()]);
                }
            }
        }
        i = i + 1;
    }
    proof {
        assert(chunks@.take(chunks@.len() as int) =~= chunks@);
    }
    let ghost r0 = r@;
    let tail = enc.finish();
    let ghost tail_view = tail@;
    proof {
        assert(tail@.len() == 1);
    }
    append_frames(&mut r, tail);
    proof {
        lemma_frames_payload_concat_split(r@, r0.len() as int);
        assert(r@.take(r0.len() as int) =~= r0);
        assert(r@.skip(r0.len() as int) =~= tail_view);
        assert(r@.last().last);
        assert forall|j: int| 0 <= j < r@.len() implies (#[trigger] r@[j]).packet_id as int
            == spec_min_int(j + 1, u32::MAX as int) by {
            if j < r0.len() {
                assert(r@[j] == r0[j]);
            } else {
                assert(r@[j] == tail_view[j - r0.len()]);
            }
        }
        assert forall|j: int| 0 <= j < r@.len() implies frame_sized(
            &(#[trigger] r@[j]),
            headers_view,
            max_packet_size as int,
        ) by {
            if j < r0.len() {
                assert(r@[j] == r0[j]);
            } else {
                assert(r@[j] == tail_view[j - r0.len()]);
            }
        }
    }
    r
}

/// Frames a whole stream of chunks cut down to byte ranges: the
/// frames' payloads, in order, carry exactly the stream's bytes that
/// fall in one of the ranges — the stream's [`restriction`].  No frame
/// before the final one bears the last flag, and the final one bears
/// it whenever any range matched the stream's tail window.
pub fn encode_chunks_ranged(
    request_id: u64,
    headers: Vec<u8>,
    max_packet_size: usize,
    ranges: Vec<ByteRange>,
    chunks: &Vec<Vec<u8>>,
) -> (r: Vec<BinaryFrame>)
    requires
        headers@.len() + 17 < max_packet_size,
        headers@.len() <= u32::MAX,
        ranges_sorted_disjoint(ranges@),
        chunks_concat(chunks@).len() <= u64::MAX,
        forall|i: int| 0 <= i < chunks@.len() ==> (#[trigger] chunks@[i])@.len() + max_packet_size
            <= usize::MAX,
    ensures
        frames_payload_concat(r@) == restriction(chunks_concat(chunks@), 0, ranges@),
        forall|i: int| 0 <= i < r@.len() - 1 ==> !(#[trigger] r@[i]).last,
        forall|i: int| 0 <= i < r@.len() ==> (#[trigger] r@[i]).request_id == request_id,
        forall|i: int| 0 <= i < r@.len() ==> (#[trigger] r@[i]).packet_id as int == spec_min_int(
            i + 1,
            u32::MAX as int,
        ),
        forall|i: int| 0 <= i < r@.len() ==> frame_sized(
            &(#[trigger] r@[i]),
            headers@,
            max_packet_size as int,
        ),
{
    let ghost headers_view = headers@;
    let ghost ranges_view = ranges@;
    let mut enc = StreamEncoder::new(request_id, headers, max_packet_size, Some(ranges));
    let mut r: Vec<BinaryFrame> = Vec::new();
    let mut i: usize = 0;
    proof {
        assert(chunks@.take(0) =~= Seq::<Vec<u8>>::empty());
        assert(enc.pushed@ =~= chunks_concat(chunks@.take(0)));
        assert(frames_payload_concat(r@) =~= enc.emitted@);
    }
    while i < chunks.len()
        invariant
            0 <= i <= chunks@.len(),
            enc_wf(&enc),
            !enc.finished,
            enc.ranges matches Some(rs) && rs@ == ranges_view,
            enc.request_id == request_id,
            enc.max_packet_size == max_packet_size,
            enc.headers@ == headers_view,
            enc.packet_id as int == spec_min_int(r@.len() as int + 1, u32::MAX as int),
            forall|j: int| 0 <= j < r@.len() ==> (#[trigger] r@[j]).packet_id as int
                == spec_min_int(j + 1, u32::MAX as int),
            forall|j: int| 0 <= j < r@.len() ==> frame_sized(
                &(#[trigger] r@[j]),
                headers_view,
                max_packet_size as int,
            ),
            enc.pushed@ == chunks_concat(chunks@.take(i as int)),
            frames_payload_concat(r@) == enc.emitted@,
            chunks_concat(chunks@).len() <= u64::MAX,
            forall|j: int| 0 <= j < chunks@.len() ==> (#[trigger] chunks@[j])@.len()
                + max_packet_size <= usize::MAX,
            forall|j: int| 0 <= j < r@.len() ==> !(#[trigger] r@[j]).last,
            forall|j: int| 0 <= j < r@.len() ==> (#[trigger] r@[j]).request_id == request_id,
        decreases chunks@.len() - i,
    {
        proof {
            lemma_chunks_concat_take(chunks@, i as int);
            lemma_chunks_concat_prefix_len(chunks@, i as int + 1);
        }
        let ghost r0 = r@;
        let frames = enc.push_chunk(&chunks[i]);
        let ghost frames_view = frames@;
        append_frames(&mut r, frames);
        proof {
            lemma_frames_payload_concat_split(r@, r0.len() as int);
            assert(r@.take(r0.len() as int) =~= r0);
            assert(r@.skip(r0.len() as int) =~= frames_view);
            assert forall|j: int| 0 <= j < r@.len() implies (#[trigger] r@[j]).packet_id as int
                == spec_min_int(j + 1, u32::MAX as int) by {
                if j < r0.len() {
                    assert(r@[j] == r0[j]);
                } else {
                    assert(r@[j] == frames_view[j - r0.len()]);
                }
            }
            assert forall|j: int| 0 <= j < r@.len() implies frame_sized(
                &(#[trigger] r@[j]),
                headers_view,
                max_packet_size as int,
            ) by {
                if j < r0.len() {
                    assert(r@[j] == r0[j]);
                } else {
                    assert(r@[j] == frames_view[j - r0.len()]);
                }
            }
        }
        i = i + 1;
    }
    proof {
        assert(chunks@.take(chunks@.len() as int) =~= chunks@);
    }
    let ghost r0 = r@;
    let tail = enc.finish();
    let ghost tail_view = tail@;
    append_frames(&mut r, tail);
    proof {
        lemma_frames_payload_concat_split(r@, r0.len() as int);
        assert(r@.take(r0.len() as int) =~= r0);
        assert(r@.skip(r0.len() as int) =~= tail_view);
        assert forall|k: int| 0 <= k < r@.len() - 1 implies !(#[trigger] r@[k]).last by {
            if k < r0.len() {
                assert(r@[k] == r0[k]);
            } else {
                assert(r@[k] == tail_view[k - r0.len()]);
            }
        }
        assert forall|j: int| 0 <= j < r@.len() implies (#[trigger] r@[j]).packet_id as int
            == spec_min_int(j + 1, u32::MAX as int) by {
            if j < r0.len() {
                assert(r@[j] == r0[j]);
            } else {
                assert(r@[j] == tail_view[j - r0.len()]);
            }
        }
        assert forall|j: int| 0 <= j < r@.len() implies frame_sized(
            &(#[trigger] r@[j]),
            headers_view,
            max_packet_size as int,
        ) by {
            if j < r0.len() {
                assert(r@[j] == r0[j]);
            } else {
                assert(r@[j] == tail_view[j - r0.len()]);
            }
        }
    }
    r
}

/// Appends frames to a collection.
pub fn append_frames(dst: &mut Vec<BinaryFrame>, src: Vec<BinaryFrame>)
    ensures
        final(dst)@ == old(dst)@ + src@,
{
    let mut s = src;
    dst.append(&mut s);
}

} // verus!
