use netkit::messages::{AckStatus, FileChunk, FileResponse, Kind, Status, TransferAck};
use netkit::protocol::{
    ack_for_metadata, build_query, filename_ok, plan_for_response, receive_step, ClientPlan,
    RecvStep, ServerEvent, ServerMachine, ServerReply, ServerState, ServerWant,
};
use netkit::service::{DelayedEchoService, FileTransferService};
use netkit::ErrorKind;

fn query(version: u32, name: &str) -> ServerEvent {
    ServerEvent::Query(build_query(version, name.as_bytes().to_vec()))
}

#[test]
fn test_protocol_happy_path() {
    // A 3-byte file "abc" served with chunk_size 2: metadata, two chunks,
    // then a clean close.
    let service = FileTransferService::new(b"data".to_vec(), 1, 2);
    let mut m = service.machine();
    assert_eq!(m.wants(), ServerWant::RecvQuery);

    let d = m.step(query(1, "a.bin"));
    assert_eq!(d.stat_file.as_deref(), Some(b"a.bin".as_slice()));
    assert!(d.reply.is_none() && !d.close && d.error.is_none());
    assert_eq!(m.wants(), ServerWant::StatFile);

    let d = m.step(ServerEvent::Stat { found: true, file_size: 3 });
    match d.reply {
        Some(ServerReply::Response(FileResponse::Metadata { status, file_size })) => {
            assert_eq!(status, Status::Found);
            assert_eq!(file_size, 3);
        }
        _ => panic!("expected metadata"),
    }
    assert!(!d.close);
    assert_eq!(m.wants(), ServerWant::RecvAck);

    let d = m.step(ServerEvent::Ack(TransferAck { status: AckStatus::Accepted }));
    assert!(d.reply.is_none() && !d.close && d.error.is_none());
    assert_eq!(m.state, ServerState::Streaming { next_index: 0 });

    let d = m.step(ServerEvent::FileData(b"ab".to_vec()));
    match d.reply {
        Some(ServerReply::Chunk(FileChunk { index, data })) => {
            assert_eq!(index, 0);
            assert_eq!(data, b"ab".to_vec());
        }
        _ => panic!("expected chunk"),
    }

    let d = m.step(ServerEvent::FileData(b"c".to_vec()));
    match d.reply {
        Some(ServerReply::Chunk(FileChunk { index, data })) => {
            assert_eq!(index, 1);
            assert_eq!(data, b"c".to_vec());
        }
        _ => panic!("expected chunk"),
    }

    let d = m.step(ServerEvent::FileEof);
    assert!(d.reply.is_none() && d.error.is_none());
    assert_eq!(m.state, ServerState::Closed { clean: true });
    assert_eq!(m.wants(), ServerWant::Done);

    // The client assembles the same bytes and counts them.
    let mut total: u64 = 0;
    let mut sink: Vec<u8> = Vec::new();
    for data in [b"ab".to_vec(), b"c".to_vec()] {
        match receive_step(total, Ok(FileChunk { index: 0, data })) {
            RecvStep::Append { data, total: t } => {
                sink.extend_from_slice(&data);
                total = t;
            }
            _ => panic!("expected append"),
        }
    }
    match receive_step(total, Err(ErrorKind::UnexpectedEof)) {
        RecvStep::Finished { total } => assert_eq!(total, 3),
        _ => panic!("expected finish"),
    }
    assert_eq!(sink, b"abc".to_vec());
}

#[test]
fn test_version_mismatch() {
    // The client speaks version 99, the server version 1: an
    // UnsupportedVersion error, then a shutdown.
    let mut m = ServerMachine::new(1, 1024);
    let d = m.step(query(99, "x"));
    match d.reply {
        Some(ServerReply::Response(FileResponse::Error { kind, message })) => {
            assert_eq!(kind, Kind::UnsupportedVersion);
            assert_eq!(message, b"1".to_vec());
        }
        _ => panic!("expected error response"),
    }
    assert!(d.close);
    assert_eq!(d.error, Some(ErrorKind::Unsupported));
    assert_eq!(m.state, ServerState::Closed { clean: false });

    // The client surfaces the error branch without further reads.
    let resp = FileResponse::Error { kind: Kind::UnsupportedVersion, message: b"1".to_vec() };
    assert_eq!(plan_for_response(&resp, 1_000_000), ClientPlan::ServerError(Kind::UnsupportedVersion));
}

#[test]
fn test_version_mismatch_message_names_server_version() {
    // The error message carries the server's supported version in decimal.
    let mut m = ServerMachine::new(42, 1024);
    let d = m.step(query(7, "x"));
    match d.reply {
        Some(ServerReply::Response(FileResponse::Error { kind, message })) => {
            assert_eq!(kind, Kind::UnsupportedVersion);
            assert_eq!(message, b"42".to_vec());
        }
        _ => panic!("expected error response"),
    }
}

#[test]
fn test_rejection_path() {
    // The server offers ten million bytes, the client accepts at most one
    // million: a Rejected acknowledgement, and the connection closes with no
    // chunks transmitted.
    let resp = FileResponse::Metadata { status: Status::Found, file_size: 10_000_000 };
    assert_eq!(plan_for_response(&resp, 1_000_000), ClientPlan::Reject);

    let ack = ack_for_metadata(10_000_000, 1_000_000);
    assert_eq!(ack.status, AckStatus::Rejected);

    let mut m = ServerMachine::new(1, 1024);
    m.step(query(1, "big.bin"));
    m.step(ServerEvent::Stat { found: true, file_size: 10_000_000 });
    let d = m.step(ServerEvent::Ack(ack));
    assert!(d.reply.is_none());
    assert!(d.close);
    assert!(d.error.is_none());
    assert_eq!(m.state, ServerState::Closed { clean: true });
}

#[test]
fn test_not_found() {
    // The file is absent: Metadata{NotFound, 0}, then a shutdown; the client
    // sends no acknowledgement and reports not-found.
    let mut m = ServerMachine::new(1, 1024);
    m.step(query(1, "absent.bin"));
    let d = m.step(ServerEvent::Stat { found: false, file_size: 0 });
    match d.reply {
        Some(ServerReply::Response(FileResponse::Metadata { status, file_size })) => {
            assert_eq!(status, Status::NotFound);
            assert_eq!(file_size, 0);
        }
        _ => panic!("expected metadata"),
    }
    assert!(d.close);
    assert_eq!(d.error, Some(ErrorKind::NotFound));

    let resp = FileResponse::Metadata { status: Status::NotFound, file_size: 0 };
    assert_eq!(plan_for_response(&resp, 1_000_000), ClientPlan::Missing);
}

#[test]
fn test_malformed_query_closes_connection() {
    let mut m = ServerMachine::new(1, 1024);
    let d = m.step(ServerEvent::Malformed);
    assert!(d.reply.is_none());
    assert!(d.close);
    assert_eq!(d.error, Some(ErrorKind::InvalidData));
    assert_eq!(m.state, ServerState::Closed { clean: false });
}

#[test]
fn test_traversal_filename_is_refused() {
    let mut m = ServerMachine::new(1, 1024);
    let d = m.step(query(1, "../etc/passwd"));
    match d.reply {
        Some(ServerReply::Response(FileResponse::Error { kind, message })) => {
            assert_eq!(kind, Kind::NotFound);
            assert!(message.is_empty());
        }
        _ => panic!("expected error response"),
    }
    assert!(d.close);
    assert_eq!(d.error, Some(ErrorKind::NotFound));
}

#[test]
fn test_filename_ok_cases() {
    assert!(filename_ok(b"a.bin"));
    assert!(filename_ok(b"dir/file.txt"));
    assert!(filename_ok(b"a..b")); // dots inside a segment are fine
    assert!(filename_ok(b"..."));
    assert!(!filename_ok(b""));
    assert!(!filename_ok(b"/etc/passwd"));
    assert!(!filename_ok(b".."));
    assert!(!filename_ok(b"../x"));
    assert!(!filename_ok(b"a/../b"));
    assert!(!filename_ok(b"a/.."));
    assert!(!filename_ok(b"a\0b"));
}

#[test]
fn test_plan_for_response_boundary() {
    // A file exactly as large as the bound is still accepted.
    let resp = FileResponse::Metadata { status: Status::Found, file_size: 1_000_000 };
    assert_eq!(plan_for_response(&resp, 1_000_000), ClientPlan::Download);
    assert_eq!(ack_for_metadata(1_000_000, 1_000_000).status, AckStatus::Accepted);
}

#[test]
fn test_receive_step_surfaces_other_errors() {
    match receive_step(5, Err(ErrorKind::Io)) {
        RecvStep::Failed(k) => assert_eq!(k, ErrorKind::Io),
        _ => panic!("expected failure"),
    }
}

#[test]
fn test_echo_response_joins_lines() {
    let service = DelayedEchoService::new(0);
    assert_eq!(service.delay, 0);
    let lines = vec![b"hello".to_vec(), b"world".to_vec()];
    assert_eq!(service.echo_response(&lines), b"hello\nworld\n".to_vec());
    assert_eq!(service.echo_response(&Vec::new()), b"\n".to_vec());
}

#[test]
fn test_file_path_joins_base_dir() {
    let service = FileTransferService::new(b"data".to_vec(), 1, 1024);
    assert_eq!(service.protocol_version, 1);
    assert_eq!(service.chunk_size, 1024);
    assert_eq!(service.file_path(b"a.bin"), b"data/a.bin".to_vec());
}
