//! The wire encoding of the protocol messages.
//!
//! Each message kind has a fixed positional layout; the kind itself is never
//! tagged on the wire, because the protocol state determines which kind is
//! expected next. Every encoder is paired with a decoder, and a lemma per
//! kind proves that decoding an encoding gives the encoded message back.

use vstd::prelude::*;

use crate::bytes::{
    copy_range, lemma_u32_be_roundtrip, lemma_u64_be_roundtrip, push_u32_be, push_u64_be,
    read_u32_be, read_u64_be, spec_u32_be, spec_u32_from_be, spec_u64_be, spec_u64_from_be,
};
use crate::messages::{
    AckStatus, FileChunk, FileChunkView, FileQuery, FileQueryView, FileResponse, FileResponseView,
    Kind, Status, TransferAck, spec_ack_byte, spec_ack_of_byte, spec_kind_byte, spec_kind_of_byte,
    spec_status_byte, spec_status_of_byte,
};
use crate::ErrorKind;

verus! {

/// Encoding of a query: big-endian version, then the file name bytes.
pub open spec fn spec_encode_file_query(m: FileQueryView) -> Seq<u8> {
    spec_u32_be(m.version) + m.filename
}

/// Decoding of a query; `None` on anything shorter than the version word.
pub open spec fn spec_decode_file_query(b: Seq<u8>) -> Option<FileQueryView> {
    if b.len() >= 4 {
        Some(
            FileQueryView {
                version: spec_u32_from_be(b[0], b[1], b[2], b[3]),
                filename: b.subrange(4, b.len() as int),
            },
        )
    } else {
        None
    }
}

/// Encoding of a response: a branch byte, then either the status byte and
/// the big-endian file size, or the error kind byte and the message bytes.
pub open spec fn spec_encode_file_response(m: FileResponseView) -> Seq<u8> {
    match m {
        FileResponseView::Metadata { status, file_size } => seq![0u8, spec_status_byte(status)]
            + spec_u64_be(file_size),
        FileResponseView::Error { kind, message } => seq![1u8, spec_kind_byte(kind)] + message,
    }
}

/// Decoding of a response; `None` on an unknown branch or status byte, or on
/// a metadata branch of the wrong length.
pub open spec fn spec_decode_file_response(b: Seq<u8>) -> Option<FileResponseView> {
    if b.len() >= 2 {
        if b[0] == 0 {
            if b.len() == 10 && spec_status_of_byte(b[1]) is Some {
                Some(
                    FileResponseView::Metadata {
                        status: spec_status_of_byte(b[1])->Some_0,
                        file_size: spec_u64_from_be(b.subrange(2, 10)),
                    },
                )
            } else {
                None
            }
        } else if b[0] == 1 {
            if spec_kind_of_byte(b[1]) is Some {
                Some(
                    FileResponseView::Error {
                        kind: spec_kind_of_byte(b[1])->Some_0,
                        message: b.subrange(2, b.len() as int),
                    },
                )
            } else {
                None
            }
        } else {
            None
        }
    } else {
        None
    }
}

/// Encoding of an acknowledgement: one status byte.
pub open spec fn spec_encode_transfer_ack(m: TransferAck) -> Seq<u8> {
    seq![spec_ack_byte(m.status)]
}

/// Decoding of an acknowledgement; `None` unless exactly one known byte.
pub open spec fn spec_decode_transfer_ack(b: Seq<u8>) -> Option<TransferAck> {
    if b.len() == 1 && spec_ack_of_byte(b[0]) is Some {
        Some(TransferAck { status: spec_ack_of_byte(b[0])->Some_0 })
    } else {
        None
    }
}

/// Encoding of a chunk: big-endian index, then the payload bytes.
pub open spec fn spec_encode_file_chunk(m: FileChunkView) -> Seq<u8> {
    spec_u32_be(m.index) + m.data
}

/// Decoding of a chunk; `None` on anything shorter than the index word.
pub open spec fn spec_decode_file_chunk(b: Seq<u8>) -> Option<FileChunkView> {
    if b.len() >= 4 {
        Some(
            FileChunkView {
                index: spec_u32_from_be(b[0], b[1], b[2], b[3]),
                data: b.subrange(4, b.len() as int),
            },
        )
    } else {
        None
    }
}

/// Decoding a query encoding gives the query back.
pub proof fn lemma_file_query_roundtrip(m: FileQueryView)
    ensures
        spec_decode_file_query(spec_encode_file_query(m)) == Some(m),
{
    let e = spec_encode_file_query(m);
    lemma_u32_be_roundtrip(m.version);
    assert(e.subrange(4, e.len() as int) =~= m.filename);
}

/// Decoding a response encoding gives the response back.
pub proof fn lemma_file_response_roundtrip(m: FileResponseView)
    ensures
        spec_decode_file_response(spec_encode_file_response(m)) == Some(m),
{
    let e = spec_encode_file_response(m);
    match m {
        FileResponseView::Metadata { status, file_size } => {
            lemma_u64_be_roundtrip(file_size);
            assert(e.subrange(2, 10) =~= spec_u64_be(file_size));
        },
        FileResponseView::Error { kind, message } => {
            assert(e.subrange(2, e.len() as int) =~= message);
        },
    }
}

/// Decoding an acknowledgement encoding gives the acknowledgement back.
pub proof fn lemma_transfer_ack_roundtrip(m: TransferAck)
    ensures
        spec_decode_transfer_ack(spec_encode_transfer_ack(m)) == Some(m),
{
}

/// Decoding a chunk encoding gives the chunk back.
pub proof fn lemma_file_chunk_roundtrip(m: FileChunkView)
    ensures
        spec_decode_file_chunk(spec_encode_file_chunk(m)) == Some(m),
{
    let e = spec_encode_file_chunk(m);
    lemma_u32_be_roundtrip(m.index);
    assert(e.subrange(4, e.len() as int) =~= m.data);
}

/// A decoded query came from exactly these bytes: the decoder accepts only
/// what the encoder writes.
pub proof fn lemma_file_query_canonical(b: Seq<u8>)
    requires
        spec_decode_file_query(b) is Some,
    ensures
        spec_encode_file_query(spec_decode_file_query(b)->Some_0) =~= b,
{
    crate::bytes::lemma_u32_be_canonical(b[0], b[1], b[2], b[3]);
}

/// A decoded response came from exactly these bytes.
pub proof fn lemma_file_response_canonical(b: Seq<u8>)
    requires
        spec_decode_file_response(b) is Some,
    ensures
        spec_encode_file_response(spec_decode_file_response(b)->Some_0) =~= b,
{
    if b[0] == 0 {
        crate::bytes::lemma_u64_be_canonical(b.subrange(2, 10));
    }
}

/// A decoded acknowledgement came from exactly these bytes.
pub proof fn lemma_transfer_ack_canonical(b: Seq<u8>)
    requires
        spec_decode_transfer_ack(b) is Some,
    ensures
        spec_encode_transfer_ack(spec_decode_transfer_ack(b)->Some_0) =~= b,
{
}

/// A decoded chunk came from exactly these bytes.
pub proof fn lemma_file_chunk_canonical(b: Seq<u8>)
    requires
        spec_decode_file_chunk(b) is Some,
    ensures
        spec_encode_file_chunk(spec_decode_file_chunk(b)->Some_0) =~= b,
{
    crate::bytes::lemma_u32_be_canonical(b[0], b[1], b[2], b[3]);
}

/// Encodes a query.
pub fn encode_file_query(m: &FileQuery) -> (r: Vec<u8>)
    ensures
        r@ == spec_encode_file_query(m@),
{
    let mut r: Vec<u8> = Vec::new();
    push_u32_be(&mut r, m.version);
    let mut i: usize = 0;
    while i < m.filename.len()
        invariant
            i <= m.filename@.len(),
            r@ == spec_u32_be(m.version) + m.filename@.subrange(0, i as int),
        decreases m.filename@.len() - i,
    {
        r.push(m.filename[i]);
        i = i + 1;
        assert(r@ =~= spec_u32_be(m.version) + m.filename@.subrange(0, i as int));
    }
    assert(r@ =~= spec_encode_file_query(m@));
    r
}

/// Decodes a query, or reports malformed data.
pub fn decode_file_query(buf: &[u8]) -> (r: Result<FileQuery, ErrorKind>)
    ensures
        match r {
            Ok(m) => spec_decode_file_query(buf@) == Some(m@) && buf@ == spec_encode_file_query(
                m@,
            ),
            Err(k) => k == ErrorKind::InvalidData && spec_decode_file_query(buf@) is None,
        },
{
    if buf.len() < 4 {
        return Err(ErrorKind::InvalidData);
    }
    let version = read_u32_be(buf, 0);
    let filename = copy_range(buf, 4, buf.len());
    proof {
        lemma_file_query_canonical(buf@);
    }
    Ok(FileQuery { version, filename })
}

/// Encodes a response.
pub fn encode_file_response(m: &FileResponse) -> (r: Vec<u8>)
    ensures
        r@ == spec_encode_file_response(m@),
{
    let mut r: Vec<u8> = Vec::new();
    match m {
        FileResponse::Metadata { status, file_size } => {
            r.push(0);
            r.push(
                match status {
                    Status::Found => 0,
                    Status::NotFound => 1,
                },
            );
            assert(r@ =~= seq![0u8, spec_status_byte(*status)]);
            push_u64_be(&mut r, *file_size);
        },
        FileResponse::Error { kind, message } => {
            r.push(1);
            r.push(
                match kind {
                    Kind::UnsupportedVersion => 0,
                    Kind::NotFound => 1,
                    Kind::Internal => 2,
                },
            );
            assert(r@ =~= seq![1u8, spec_kind_byte(*kind)]);
            let mut i: usize = 0;
            while i < message.len()
                invariant
                    i <= message@.len(),
                    r@ == seq![1u8, spec_kind_byte(*kind)] + message@.subrange(0, i as int),
                decreases message@.len() - i,
            {
                r.push(message[i]);
                i = i + 1;
                assert(r@ =~= seq![1u8, spec_kind_byte(*kind)] + message@.subrange(0, i as int));
            }
            assert(message@.subrange(0, message@.len() as int) =~= message@);
        },
    }
    assert(r@ =~= spec_encode_file_response(m@));
    r
}

/// Decodes a response, or reports malformed data.
pub fn decode_file_response(buf: &[u8]) -> (r: Result<FileResponse, ErrorKind>)
    ensures
        match r {
            Ok(m) => spec_decode_file_response(buf@) == Some(m@) && buf@
                == spec_encode_file_response(m@),
            Err(k) => k == ErrorKind::InvalidData && spec_decode_file_response(buf@) is None,
        },
{
    if buf.len() < 2 {
        return Err(ErrorKind::InvalidData);
    }
    if buf[0] == 0 {
        if buf.len() != 10 {
            return Err(ErrorKind::InvalidData);
        }
        let status = if buf[1] == 0 {
            Status::Found
        } else if buf[1] == 1 {
            Status::NotFound
        } else {
            return Err(ErrorKind::InvalidData);
        };
        let file_size = read_u64_be(buf, 2);
        proof {
            lemma_file_response_canonical(buf@);
        }
        Ok(FileResponse::Metadata { status, file_size })
    } else if buf[0] == 1 {
        let kind = if buf[1] == 0 {
            Kind::UnsupportedVersion
        } else if buf[1] == 1 {
            Kind::NotFound
        } else if buf[1] == 2 {
            Kind::Internal
        } else {
            return Err(ErrorKind::InvalidData);
        };
        let message = copy_range(buf, 2, buf.len());
        proof {
            lemma_file_response_canonical(buf@);
        }
        Ok(FileResponse::Error { kind, message })
    } else {
        Err(ErrorKind::InvalidData)
    }
}

/// Encodes an acknowledgement.
pub fn encode_transfer_ack(m: &TransferAck) -> (r: Vec<u8>)
    ensures
        r@ == spec_encode_transfer_ack(*m),
{
    let mut r: Vec<u8> = Vec::new();
    r.push(
        match m.status {
            AckStatus::Accepted => 0,
            AckStatus::Rejected => 1,
        },
    );
    assert(r@ =~= spec_encode_transfer_ack(*m));
    r
}

/// Decodes an acknowledgement, or reports malformed data.
pub fn decode_transfer_ack(buf: &[u8]) -> (r: Result<TransferAck, ErrorKind>)
    ensures
        match r {
            Ok(m) => spec_decode_transfer_ack(buf@) == Some(m) && buf@ == spec_encode_transfer_ack(
                m,
            ),
            Err(k) => k == ErrorKind::InvalidData && spec_decode_transfer_ack(buf@) is None,
        },
{
    if buf.len() != 1 {
        return Err(ErrorKind::InvalidData);
    }
    proof {
        if spec_decode_transfer_ack(buf@) is Some {
            lemma_transfer_ack_canonical(buf@);
        }
    }
    if buf[0] == 0 {
        Ok(TransferAck { status: AckStatus::Accepted })
    } else if buf[0] == 1 {
        Ok(TransferAck { status: AckStatus::Rejected })
    } else {
        Err(ErrorKind::InvalidData)
    }
}

/// Encodes a chunk.
pub fn encode_file_chunk(m: &FileChunk) -> (r: Vec<u8>)
    ensures
        r@ == spec_encode_file_chunk(m@),
{
    let mut r: Vec<u8> = Vec::new();
    push_u32_be(&mut r, m.index);
    let mut i: usize = 0;
    while i < m.data.len()
        invariant
            i <= m.data@.len(),
            r@ == spec_u32_be(m.index) + m.data@.subrange(0, i as int),
        decreases m.data@.len() - i,
    {
        r.push(m.data[i]);
        i = i + 1;
        assert(r@ =~= spec_u32_be(m.index) + m.data@.subrange(0, i as int));
    }
    assert(r@ =~= spec_encode_file_chunk(m@));
    r
}

/// Decodes a chunk, or reports malformed data.
pub fn decode_file_chunk(buf: &[u8]) -> (r: Result<FileChunk, ErrorKind>)
    ensures
        match r {
            Ok(m) => spec_decode_file_chunk(buf@) == Some(m@) && buf@ == spec_encode_file_chunk(
                m@,
            ),
            Err(k) => k == ErrorKind::InvalidData && spec_decode_file_chunk(buf@) is None,
        },
{
    if buf.len() < 4 {
        return Err(ErrorKind::InvalidData);
    }
    let index = read_u32_be(buf, 0);
    let data = copy_range(buf, 4, buf.len());
    proof {
        lemma_file_chunk_canonical(buf@);
    }
    Ok(FileChunk { index, data })
}

} // verus!
