//! The four message kinds of the file-transfer protocol, their mathematical
//! views, and the byte values that stand for each enum on the wire.

use vstd::prelude::*;

verus! {

/// Whether the requested file exists on the server.
#[derive(Clone, Copy, Debug, PartialEq, Eq, Structural)]
pub enum Status {
    Found,
    NotFound,
}

/// The class of a protocol-level error response.
#[derive(Clone, Copy, Debug, PartialEq, Eq, Structural)]
pub enum Kind {
    UnsupportedVersion,
    NotFound,
    Internal,
}

/// The client's verdict on the offered file.
#[derive(Clone, Copy, Debug, PartialEq, Eq, Structural)]
pub enum AckStatus {
    Accepted,
    Rejected,
}

/// The opening message: the client names a protocol version and a file.
#[derive(Clone, Debug, PartialEq, Eq)]
pub struct FileQuery {
    pub version: u32,
    /// The file name as bytes; the wire format carries no text encoding.
    pub filename: Vec<u8>,
}

/// The server's answer to a query: metadata on success, a classified error
/// otherwise.
#[derive(Clone, Debug, PartialEq, Eq)]
pub enum FileResponse {
    Metadata { status: Status, file_size: u64 },
    Error { kind: Kind, message: Vec<u8> },
}

/// The client's acknowledgement after reading the metadata.
#[derive(Clone, Copy, Debug, PartialEq, Eq, Structural)]
pub struct TransferAck {
    pub status: AckStatus,
}

/// One fragment of the file, numbered from zero.
#[derive(Clone, Debug, PartialEq, Eq)]
pub struct FileChunk {
    pub index: u32,
    pub data: Vec<u8>,
}

/// Mathematical view of a `FileQuery`.
pub struct FileQueryView {
    pub version: u32,
    pub filename: Seq<u8>,
}

/// Mathematical view of a `FileResponse`.
pub enum FileResponseView {
    Metadata { status: Status, file_size: u64 },
    Error { kind: Kind, message: Seq<u8> },
}

/// Mathematical view of a `FileChunk`.
pub struct FileChunkView {
    pub index: u32,
    pub data: Seq<u8>,
}

impl View for FileQuery {
    type V = FileQueryView;

    open spec fn view(&self) -> FileQueryView {
        FileQueryView { version: self.version, filename: self.filename@ }
    }
}

impl View for FileResponse {
    type V = FileResponseView;

    open spec fn view(&self) -> FileResponseView {
        match self {
            FileResponse::Metadata { status, file_size } => FileResponseView::Metadata {
                status: *status,
                file_size: *file_size,
            },
            FileResponse::Error { kind, message } => FileResponseView::Error {
                kind: *kind,
                message: message@,
            },
        }
    }
}

impl View for FileChunk {
    type V = FileChunkView;

    open spec fn view(&self) -> FileChunkView {
        FileChunkView { index: self.index, data: self.data@ }
    }
}

/// The wire byte for a `Status`.
pub open spec fn spec_status_byte(s: Status) -> u8 {
    match s {
        Status::Found => 0,
        Status::NotFound => 1,
    }
}

/// The `Status` named by a wire byte.
pub open spec fn spec_status_of_byte(b: u8) -> Option<Status> {
    if b == 0 {
        Some(Status::Found)
    } else if b == 1 {
        Some(Status::NotFound)
    } else {
        None
    }
}

/// The wire byte for a `Kind`.
pub open spec fn spec_kind_byte(k: Kind) -> u8 {
    match k {
        Kind::UnsupportedVersion => 0,
        Kind::NotFound => 1,
        Kind::Internal => 2,
    }
}

/// The `Kind` named by a wire byte.
pub open spec fn spec_kind_of_byte(b: u8) -> Option<Kind> {
    if b == 0 {
        Some(Kind::UnsupportedVersion)
    } else if b == 1 {
        Some(Kind::NotFound)
    } else if b == 2 {
        Some(Kind::Internal)
    } else {
        None
    }
}

/// The wire byte for an `AckStatus`.
pub open spec fn spec_ack_byte(s: AckStatus) -> u8 {
    match s {
        AckStatus::Accepted => 0,
        AckStatus::Rejected => 1,
    }
}

/// The `AckStatus` named by a wire byte.
pub open spec fn spec_ack_of_byte(b: u8) -> Option<AckStatus> {
    if b == 0 {
        Some(AckStatus::Accepted)
    } else if b == 1 {
        Some(AckStatus::Rejected)
    } else {
        None
    }
}

} // verus!
