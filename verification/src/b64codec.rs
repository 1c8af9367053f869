//! The base64 framing of the tunnel wire protocol.
//!
//! In text mode a frame is one line-like envelope,
//! `{request}|{packet}|{headers}{payload}`: both identifiers in
//! decimal, the header block base64-coded inside braces on the first
//! packet only, and the payload base64-coded.  Payload bytes are cut
//! into whole three-byte groups, so no frame ever splits a base64
//! quartet, and the end of the stream is a final frame with an empty
//! payload.  Byte ranges are not supported in this mode and are
//! refused loudly.

use vstd::prelude::*;
use crate::b64::{base64_encode, base64_of};
use crate::num::{dec_str, format_u64};
use crate::tunnel::TunnelRequestError;
use crate::codec::{append_bytes, chunks_concat, lemma_chunks_concat_take,
    lemma_chunks_concat_prefix_len, spec_min_int};

verus! {

/// One text-mode frame, before its envelope is rendered.
#[derive(Debug)]
pub struct Base64Frame {
    pub request_id: u64,
    pub packet_id: u32,
    /// The header block; present on the first packet only.
    pub headers: Option<Vec<u8>>,
    /// The raw payload bytes this frame carries.
    pub payload: Vec<u8>,
}

/// The payloads of a text-mode frame sequence, concatenated in order.
pub open spec fn b64_frames_concat(fs: Seq<Base64Frame>) -> Seq<u8>
    decreases fs.len(),
{
    if fs.len() == 0 {
        Seq::empty()
    } else {
        b64_frames_concat(fs.drop_last()) + fs.last().payload@
    }
}

/// Renders a frame's envelope: identifiers in decimal, header block in
/// braces, payload in base64.
pub fn base64_frame_to_message(f: &Base64Frame) -> (r: String)
    ensures
        r@ == dec_str(f.request_id as nat) + seq!['|'] + dec_str(f.packet_id as nat) + seq!['|']
            + (match f.headers {
            Some(h) => seq!['{'] + base64_of(h@) + seq!['}'],
            None => Seq::<char>::empty(),
        }) + base64_of(f.payload@),
{
    proof {
        reveal_strlit("|");
        reveal_strlit("{");
        reveal_strlit("}");
    }
    let mut s = format_u64(f.request_id);
    s.append("|");
    let pid_text = format_u64(f.packet_id as u64);
    s.append(pid_text.as_str());
    s.append("|");
    if let Some(h) = &f.headers {
        s.append("{");
        let hb = base64_encode(h);
        s.append(hb.as_str());
        s.append("}");
    }
    let pb = base64_encode(&f.payload);
    s.append(pb.as_str());
    proof {
        assert(s@ =~= dec_str(f.request_id as nat) + seq!['|'] + dec_str(f.packet_id as nat)
            + seq!['|'] + (match f.headers {
            Some(h) => seq!['{'] + base64_of(h@) + seq!['}'],
            None => Seq::<char>::empty(),
        }) + base64_of(f.payload@));
    }
    s
}

/// Frames a whole stream for text mode: the frames' payloads, in
/// order, carry exactly the stream's bytes; the header block rides the
/// first packet; a final empty-payload frame marks the end.  Byte
/// ranges are not implemented in this mode and fail loudly.
pub fn encode_base64_stream(
    request_id: u64,
    headers: Vec<u8>,
    bytes_per_frame: usize,
    ranges_requested: bool,
    chunks: &Vec<Vec<u8>>,
) -> (r: Result<Vec<Base64Frame>, TunnelRequestError>)
    requires
        3 <= bytes_per_frame,
        bytes_per_frame % 3 == 0,
        chunks_concat(chunks@).len() + bytes_per_frame <= usize::MAX,
        forall|i: int| 0 <= i < chunks@.len() ==> (#[trigger] chunks@[i])@.len()
            <= chunks_concat(chunks@).len(),
    ensures
        ranges_requested ==> r is Err,
        !ranges_requested ==> (r matches Ok(v) && {
            &&& b64_frames_concat(v@) == chunks_concat(chunks@)
            &&& v@.len() >= 2
            &&& v@.last().payload@.len() == 0
            &&& v@[0].headers matches Some(h) && h@ == headers@
            &&& forall|i: int| 1 <= i < v@.len() ==> (#[trigger] v@[i]).headers is None
            &&& forall|i: int| 0 <= i < v@.len() ==> (#[trigger] v@[i]).request_id == request_id
            &&& forall|i: int| 0 <= i < v@.len() ==> (#[trigger] v@[i]).payload@.len()
                <= bytes_per_frame
            &&& forall|i: int| 0 <= i < v@.len() ==> (#[trigger] v@[i]).packet_id as int
                == spec_min_int(i + 1, u32::MAX as int)
        }),
{
    if ranges_requested {
        return Err(
            TunnelRequestError::BadRequest("byte ranges are not supported in text mode".to_owned()),
        );
    }
    let mut data: Vec<u8> = Vec::new();
    let mut i: usize = 0;
    proof {
        assert(chunks@.take(0) =~= Seq::<Vec<u8>>::empty());
        assert(data@ =~= chunks_concat(chunks@.take(0)));
    }
    while i < chunks.len()
        invariant
            0 <= i <= chunks@.len(),
            data@ == chunks_concat(chunks@.take(i as int)),
            chunks_concat(chunks@).len() + bytes_per_frame <= usize::MAX,
            forall|j: int| 0 <= j < chunks@.len() ==> (#[trigger] chunks@[j])@.len()
                <= chunks_concat(chunks@).len(),
        decreases chunks@.len() - i,
    {
        proof {
            lemma_chunks_concat_take(chunks@, i as int);
            lemma_chunks_concat_prefix_len(chunks@, i as int + 1);
        }
        append_bytes(&mut data, &chunks[i]);
        i = i + 1;
    }
    proof {
        assert(chunks@.take(chunks@.len() as int) =~= chunks@);
    }

    let ghost headers_view = headers@;
    let total = data.len();
    let mut out: Vec<Base64Frame> = Vec::new();
    let mut pos: usize = 0;
    let mut packet_id: u32 = 1;

    let first_take = if total < bytes_per_frame {
        total
    } else {
        bytes_per_frame
    };
    out.push(
        Base64Frame {
            request_id,
            packet_id,
            headers: Some(headers),
            payload: crate::codec::copy_slice(&data, 0, first_take),
        },
    );
    pos = first_take;
    packet_id = 2;
    proof {
        assert(out@.drop_last() =~= Seq::<Base64Frame>::empty());
        assert(b64_frames_concat(out@.drop_last()) == Seq::<u8>::empty());
        assert(b64_frames_concat(out@) == b64_frames_concat(out@.drop_last())
            + out@.last().payload@);
        assert(Seq::<u8>::empty() + out@.last().payload@ =~= out@.last().payload@);
        assert(out@.last().payload@ =~= data@.take(pos as int));
    }
    while pos < total
        invariant
            0 <= pos <= total,
            total == data@.len(),
            b64_frames_concat(out@) == data@.take(pos as int),
            out@.len() >= 1,
            out@[0].headers matches Some(h) && h@ == headers_view,
            forall|j: int| 1 <= j < out@.len() ==> (#[trigger] out@[j]).headers is None,
            forall|j: int| 0 <= j < out@.len() ==> (#[trigger] out@[j]).request_id == request_id,
            forall|j: int| 0 <= j < out@.len() ==> (#[trigger] out@[j]).payload@.len()
                <= bytes_per_frame,
            packet_id as int == spec_min_int(out@.len() as int + 1, u32::MAX as int),
            forall|j: int| 0 <= j < out@.len() ==> (#[trigger] out@[j]).packet_id as int
                == spec_min_int(j + 1, u32::MAX as int),
            bytes_per_frame >= 3,
        decreases total - pos,
    {
        let take = if total - pos < bytes_per_frame {
            total - pos
        } else {
            bytes_per_frame
        };
        let ghost out0 = out@;
        out.push(
            Base64Frame {
                request_id,
                packet_id,
                headers: None,
                payload: crate::codec::copy_slice(&data, pos, pos + take),
            },
        );
        if packet_id < u32::MAX {
            packet_id = packet_id + 1;
        }
        proof {
            assert(out@.drop_last() =~= out0);
            assert(data@.take(pos as int + take as int) =~= data@.take(pos as int)
                + data@.subrange(pos as int, pos as int + take as int));
        }
        pos = pos + take;
    }
    let ghost out0 = out@;
    out.push(Base64Frame { request_id, packet_id, headers: None, payload: Vec::new() });
    proof {
        assert(out@.drop_last() =~= out0);
        assert(data@.take(total as int) =~= data@);
        assert(b64_frames_concat(out@) =~= data@);
    }
    Ok(out)
}

} // verus!
