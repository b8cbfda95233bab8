//! Length-delimited framing: every wire message is a 4-byte big-endian
//! payload length followed by exactly that many payload bytes.

use vstd::prelude::*;

use crate::bytes::{
    copy_range, lemma_u32_be_roundtrip, push_u32_be, read_u32_be, spec_u32_be, spec_u32_from_be,
};
use crate::codec::{
    spec_decode_file_chunk, spec_decode_file_query, spec_decode_file_response,
    spec_decode_transfer_ack, spec_encode_file_chunk, spec_encode_file_query,
    spec_encode_file_response, spec_encode_transfer_ack,
};
use crate::messages::{FileChunkView, FileQueryView, FileResponseView, TransferAck};
use crate::ErrorKind;

verus! {

/// The frame that carries `payload`.
pub open spec fn spec_frame(payload: Seq<u8>) -> Seq<u8>
    recommends
        payload.len() <= u32::MAX,
{
    spec_u32_be(payload.len() as u32) + payload
}

/// The payload read from a frame that starts at `pos` in `b`, with the
/// position just past it; `None` when `b` ends before the frame does.
pub open spec fn spec_read_frame(b: Seq<u8>, pos: int) -> Option<(Seq<u8>, int)>
    recommends
        0 <= pos <= b.len(),
{
    if pos + 4 <= b.len() {
        let n = spec_u32_from_be(b[pos], b[pos + 1], b[pos + 2], b[pos + 3]) as int;
        if pos + 4 + n <= b.len() {
            Some((b.subrange(pos + 4, pos + 4 + n), pos + 4 + n))
        } else {
            None
        }
    } else {
        None
    }
}

/// Frames a payload: exactly `4 + |payload|` bytes, the first four being the
/// payload length in big-endian order.
pub fn write_frame(payload: &[u8]) -> (r: Vec<u8>)
    requires
        payload@.len() <= u32::MAX,
    ensures
        r@ == spec_frame(payload@),
        r@.len() == 4 + payload@.len(),
        r@.subrange(0, 4) == spec_u32_be(payload@.len() as u32),
        r@.subrange(4, r@.len() as int) == payload@,
{
    let mut r: Vec<u8> = Vec::new();
    push_u32_be(&mut r, payload.len() as u32);
    let mut i: usize = 0;
    while i < payload.len()
        invariant
            i <= payload@.len(),
            payload@.len() <= u32::MAX,
            r@ == spec_u32_be(payload@.len() as u32) + payload@.subrange(0, i as int),
        decreases payload@.len() - i,
    {
        r.push(payload[i]);
        i = i + 1;
        assert(r@ =~= spec_u32_be(payload@.len() as u32) + payload@.subrange(0, i as int));
    }
    assert(r@ =~= spec_frame(payload@));
    assert(r@.subrange(0, 4) =~= spec_u32_be(payload@.len() as u32));
    assert(r@.subrange(4, r@.len() as int) =~= payload@);
    r
}

/// Reads one frame out of `buf` at `pos`. A buffer that ends before the
/// frame does — including one that ends exactly at `pos` — is a stream that
/// closed mid-message or cleanly, and reads as `UnexpectedEof`.
pub fn read_frame(buf: &[u8], pos: usize) -> (r: Result<(Vec<u8>, usize), ErrorKind>)
    requires
        pos <= buf@.len(),
    ensures
        match r {
            Ok(p) => spec_read_frame(buf@, pos as int) == Some((p.0@, p.1 as int)),
            Err(k) => k == ErrorKind::UnexpectedEof && spec_read_frame(buf@, pos as int) is None,
        },
{
    if buf.len() - pos < 4 {
        return Err(ErrorKind::UnexpectedEof);
    }
    let n = read_u32_be(buf, pos) as usize;
    if buf.len() - pos - 4 < n {
        return Err(ErrorKind::UnexpectedEof);
    }
    let payload = copy_range(buf, pos + 4, pos + 4 + n);
    Ok((payload, pos + 4 + n))
}

/// Reading at the start of a framed payload gives the payload back and
/// stops exactly at its end, whatever follows.
pub proof fn lemma_frame_roundtrip(payload: Seq<u8>, rest: Seq<u8>)
    requires
        payload.len() <= u32::MAX,
    ensures
        spec_read_frame(spec_frame(payload) + rest, 0) == Some(
            (payload, 4 + payload.len() as int),
        ),
{
    let b = spec_frame(payload) + rest;
    lemma_u32_be_roundtrip(payload.len() as u32);
    assert(b[0] == spec_u32_be(payload.len() as u32)[0] && b[1] == spec_u32_be(
        payload.len() as u32,
    )[1] && b[2] == spec_u32_be(payload.len() as u32)[2] && b[3] == spec_u32_be(
        payload.len() as u32,
    )[3]);
    assert(b.subrange(4, 4 + payload.len() as int) =~= payload);
}

/// Framing round-trip for a query: framing its encoding, reading the frame
/// back and decoding gives the same message, whatever bytes follow the
/// frame on the pipe.
pub proof fn lemma_query_wire_roundtrip(m: FileQueryView, rest: Seq<u8>)
    requires
        spec_encode_file_query(m).len() <= u32::MAX,
    ensures
        ({
            let read = spec_read_frame(spec_frame(spec_encode_file_query(m)) + rest, 0);
            read is Some && spec_decode_file_query(read->Some_0.0) == Some(m)
        }),
{
    lemma_frame_roundtrip(spec_encode_file_query(m), rest);
    crate::codec::lemma_file_query_roundtrip(m);
}

/// Framing round-trip for a response.
pub proof fn lemma_response_wire_roundtrip(m: FileResponseView, rest: Seq<u8>)
    requires
        spec_encode_file_response(m).len() <= u32::MAX,
    ensures
        ({
            let read = spec_read_frame(spec_frame(spec_encode_file_response(m)) + rest, 0);
            read is Some && spec_decode_file_response(read->Some_0.0) == Some(m)
        }),
{
    lemma_frame_roundtrip(spec_encode_file_response(m), rest);
    crate::codec::lemma_file_response_roundtrip(m);
}

/// Framing round-trip for an acknowledgement.
pub proof fn lemma_ack_wire_roundtrip(m: TransferAck, rest: Seq<u8>)
    ensures
        ({
            let read = spec_read_frame(spec_frame(spec_encode_transfer_ack(m)) + rest, 0);
            read is Some && spec_decode_transfer_ack(read->Some_0.0) == Some(m)
        }),
{
    lemma_frame_roundtrip(spec_encode_transfer_ack(m), rest);
    crate::codec::lemma_transfer_ack_roundtrip(m);
}

/// Framing round-trip for a chunk.
pub proof fn lemma_chunk_wire_roundtrip(m: FileChunkView, rest: Seq<u8>)
    requires
        spec_encode_file_chunk(m).len() <= u32::MAX,
    ensures
        ({
            let read = spec_read_frame(spec_frame(spec_encode_file_chunk(m)) + rest, 0);
            read is Some && spec_decode_file_chunk(read->Some_0.0) == Some(m)
        }),
{
    lemma_frame_roundtrip(spec_encode_file_chunk(m), rest);
    crate::codec::lemma_file_chunk_roundtrip(m);
}

} // verus!
