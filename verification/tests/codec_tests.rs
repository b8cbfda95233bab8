use netkit::codec::{
    decode_file_chunk, decode_file_query, decode_file_response, decode_transfer_ack,
    encode_file_chunk, encode_file_query, encode_file_response, encode_transfer_ack,
};
use netkit::frame::{read_frame, write_frame};
use netkit::messages::{AckStatus, FileChunk, FileQuery, FileResponse, Kind, Status, TransferAck};
use netkit::ErrorKind;

#[test]
fn test_frame_length_honesty() {
    let payload: Vec<u8> = b"hello".to_vec();
    let framed = write_frame(&payload);
    assert_eq!(framed.len(), 4 + payload.len());
    assert_eq!(&framed[0..4], &[0, 0, 0, 5]);
    assert_eq!(&framed[4..], b"hello");
}

#[test]
fn test_frame_empty_payload() {
    let framed = write_frame(&[]);
    assert_eq!(framed, vec![0, 0, 0, 0]);
    let (payload, next) = read_frame(&framed, 0).unwrap();
    assert!(payload.is_empty());
    assert_eq!(next, 4);
}

#[test]
fn test_frame_roundtrip_with_trailing_bytes() {
    let payload: Vec<u8> = b"abc".to_vec();
    let mut pipe = write_frame(&payload);
    pipe.extend_from_slice(b"rest of the stream");
    let (read, next) = read_frame(&pipe, 0).unwrap();
    assert_eq!(read, payload);
    assert_eq!(next, 7);
}

#[test]
fn test_read_frame_clean_eof() {
    let buf: Vec<u8> = Vec::new();
    assert_eq!(read_frame(&buf, 0).unwrap_err(), ErrorKind::UnexpectedEof);
}

#[test]
fn test_read_frame_short_prefix() {
    let buf: Vec<u8> = vec![0, 0, 1];
    assert_eq!(read_frame(&buf, 0).unwrap_err(), ErrorKind::UnexpectedEof);
}

#[test]
fn test_read_frame_truncated_payload() {
    let buf: Vec<u8> = vec![0, 0, 0, 9, 1, 2, 3];
    assert_eq!(read_frame(&buf, 0).unwrap_err(), ErrorKind::UnexpectedEof);
}

#[test]
fn test_query_wire_roundtrip() {
    let m = FileQuery { version: 1, filename: b"a.bin".to_vec() };
    let framed = write_frame(&encode_file_query(&m));
    let (payload, _) = read_frame(&framed, 0).unwrap();
    assert_eq!(decode_file_query(&payload).unwrap(), m);
}

#[test]
fn test_query_encoding_bytes() {
    let m = FileQuery { version: 258, filename: b"x".to_vec() };
    assert_eq!(encode_file_query(&m), vec![0, 0, 1, 2, b'x']);
}

#[test]
fn test_response_metadata_wire_roundtrip() {
    let m = FileResponse::Metadata { status: Status::Found, file_size: 3 };
    let framed = write_frame(&encode_file_response(&m));
    let (payload, _) = read_frame(&framed, 0).unwrap();
    assert_eq!(decode_file_response(&payload).unwrap(), m);
}

#[test]
fn test_response_error_wire_roundtrip() {
    let m = FileResponse::Error { kind: Kind::UnsupportedVersion, message: b"1".to_vec() };
    let framed = write_frame(&encode_file_response(&m));
    let (payload, _) = read_frame(&framed, 0).unwrap();
    assert_eq!(decode_file_response(&payload).unwrap(), m);
}

#[test]
fn test_ack_wire_roundtrip() {
    for status in [AckStatus::Accepted, AckStatus::Rejected] {
        let m = TransferAck { status };
        let framed = write_frame(&encode_transfer_ack(&m));
        let (payload, _) = read_frame(&framed, 0).unwrap();
        assert_eq!(decode_transfer_ack(&payload).unwrap(), m);
    }
}

#[test]
fn test_chunk_wire_roundtrip() {
    let m = FileChunk { index: 7, data: b"ab".to_vec() };
    let framed = write_frame(&encode_file_chunk(&m));
    let (payload, _) = read_frame(&framed, 0).unwrap();
    assert_eq!(decode_file_chunk(&payload).unwrap(), m);
}

#[test]
fn test_metadata_encoding_bytes() {
    let m = FileResponse::Metadata { status: Status::NotFound, file_size: 256 };
    assert_eq!(encode_file_response(&m), vec![0, 1, 0, 0, 0, 0, 0, 0, 1, 0]);
}

#[test]
fn test_decoders_accept_only_canonical_bytes() {
    // Whatever decodes, re-encodes to exactly the bytes it came from.
    let query_bytes = vec![0, 0, 0, 1, b'a', b'.', b'b', b'i', b'n'];
    assert_eq!(encode_file_query(&decode_file_query(&query_bytes).unwrap()), query_bytes);
    let error_bytes = vec![1, 2, b'o', b'o', b'p', b's'];
    assert_eq!(encode_file_response(&decode_file_response(&error_bytes).unwrap()), error_bytes);
    let chunk_bytes = vec![0, 0, 0, 9, 1, 2, 3];
    assert_eq!(encode_file_chunk(&decode_file_chunk(&chunk_bytes).unwrap()), chunk_bytes);
    let ack_bytes = vec![1];
    assert_eq!(encode_transfer_ack(&decode_transfer_ack(&ack_bytes).unwrap()), ack_bytes);
}

#[test]
fn test_decode_query_too_short() {
    assert_eq!(decode_file_query(&[0, 0, 1]).unwrap_err(), ErrorKind::InvalidData);
}

#[test]
fn test_decode_response_bad_branch() {
    assert_eq!(decode_file_response(&[9, 0, 0]).unwrap_err(), ErrorKind::InvalidData);
}

#[test]
fn test_decode_response_bad_status_byte() {
    let buf = [0u8, 7, 0, 0, 0, 0, 0, 0, 0, 0];
    assert_eq!(decode_file_response(&buf).unwrap_err(), ErrorKind::InvalidData);
}

#[test]
fn test_decode_response_metadata_wrong_length() {
    let buf = [0u8, 0, 0, 0];
    assert_eq!(decode_file_response(&buf).unwrap_err(), ErrorKind::InvalidData);
}

#[test]
fn test_decode_ack_bad_byte() {
    assert_eq!(decode_transfer_ack(&[2]).unwrap_err(), ErrorKind::InvalidData);
    assert_eq!(decode_transfer_ack(&[]).unwrap_err(), ErrorKind::InvalidData);
    assert_eq!(decode_transfer_ack(&[0, 0]).unwrap_err(), ErrorKind::InvalidData);
}

#[test]
fn test_decode_chunk_too_short() {
    assert_eq!(decode_file_chunk(&[1, 2]).unwrap_err(), ErrorKind::InvalidData);
}
