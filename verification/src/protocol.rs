//! The file-transfer protocol itself: the server-side state machine and the
//! client-side decisions, as pure functions from state and event to the next
//! state and the action owed to the peer.
//!
//! The stream work around these functions — accepting, reading frames,
//! statting and reading files — stays outside the crate; whoever runs the
//! machine feeds it one event at a time and performs what the directive
//! says.

use vstd::prelude::*;

use crate::bytes::{push_decimal, spec_decimal};
use crate::messages::{
    AckStatus, FileChunk, FileChunkView, FileQuery, FileResponse, FileResponseView, Kind, Status,
    TransferAck,
};
use crate::ErrorKind;

verus! {

/// A `..` path segment starts at `i` in `n`.
pub open spec fn spec_dotdot_at(n: Seq<u8>, i: int) -> bool {
    &&& 0 <= i
    &&& i + 2 <= n.len()
    &&& n[i] == 46
    &&& n[i + 1] == 46
    &&& (i == 0 || n[i - 1] == 47)
    &&& (i + 2 == n.len() || n[i + 2] == 47)
}

/// A file name the server is willing to resolve under its base directory:
/// non-empty, no NUL bytes, not absolute, and no `..` segment, so the name
/// cannot climb out of the directory.
pub open spec fn spec_filename_ok(n: Seq<u8>) -> bool {
    &&& n.len() > 0
    &&& (forall|i: int| 0 <= i < n.len() ==> n[i] != 0)
    &&& n[0] != 47
    &&& (forall|i: int| !spec_dotdot_at(n, i))
}

/// Decides whether a requested file name is safe to serve.
pub fn filename_ok(n: &[u8]) -> (r: bool)
    ensures
        r == spec_filename_ok(n@),
{
    if n.len() == 0 {
        return false;
    }
    if n[0] == 47 {
        return false;
    }
    let mut i: usize = 0;
    while i < n.len()
        invariant
            i <= n@.len(),
            n@.len() > 0,
            n@[0] != 47,
            forall|j: int| 0 <= j < i ==> n@[j] != 0,
            forall|j: int| j < i ==> !spec_dotdot_at(n@, j),
        decreases n@.len() - i,
    {
        if n[i] == 0 {
            return false;
        }
        if n[i] == 46 && i + 1 < n.len() && n[i + 1] == 46 && (i == 0 || n[i - 1] == 47) && (i + 2
            == n.len() || n[i + 2] == 47) {
            assert(spec_dotdot_at(n@, i as int));
            return false;
        }
        assert(!spec_dotdot_at(n@, i as int));
        i = i + 1;
    }
    assert forall|j: int| !spec_dotdot_at(n@, j) by {
        if 0 <= j && j + 2 <= n@.len() {
            assert(j < i);
        }
    }
    true
}

/// Where the server stands inside one connection.
#[derive(Clone, Copy, Debug, PartialEq, Eq, Structural)]
pub enum ServerState {
    /// Waiting for the opening `FileQuery`.
    AwaitQuery,
    /// Query accepted; waiting to learn whether the file exists.
    AwaitStat,
    /// Metadata sent; waiting for the client's `TransferAck`.
    AwaitAck,
    /// Sending `FileChunk` messages, the next one carrying this index.
    Streaming { next_index: u32 },
    /// The connection is shut down; `clean` says whether the exchange ended
    /// as the protocol allows rather than with an error.
    Closed { clean: bool },
}

/// One thing the outside world tells the machine.
pub enum ServerEvent {
    /// A `FileQuery` arrived.
    Query(FileQuery),
    /// The expected message arrived but did not decode, or the stream ended
    /// inside it.
    Malformed,
    /// The file was looked up: whether it exists, and its size if it does.
    Stat { found: bool, file_size: u64 },
    /// A `TransferAck` arrived.
    Ack(TransferAck),
    /// The next piece of the file was read.
    FileData(Vec<u8>),
    /// The file is exhausted.
    FileEof,
}

/// A message the machine asks to have sent.
pub enum ServerReply {
    Response(FileResponse),
    Chunk(FileChunk),
}

/// Mathematical view of a `ServerReply`.
pub enum ServerReplyView {
    Response(FileResponseView),
    Chunk(FileChunkView),
}

impl View for ServerReply {
    type V = ServerReplyView;

    open spec fn view(&self) -> ServerReplyView {
        match self {
            ServerReply::Response(m) => ServerReplyView::Response(m@),
            ServerReply::Chunk(m) => ServerReplyView::Chunk(m@),
        }
    }
}

/// What the machine asks of its runner after one step.
pub struct ServerDirective {
    /// A message to frame and send, if any.
    pub reply: Option<ServerReply>,
    /// A file to look up under the base directory, if any.
    pub stat_file: Option<Vec<u8>>,
    /// Whether to shut the stream down now.
    pub close: bool,
    /// The error the handler surfaces locally, if any.
    pub error: Option<ErrorKind>,
}

/// The events a state admits. A chunk may only be taken while the index has
/// room to grow: a file of more than `u32::MAX` chunks is outside the
/// protocol.
pub open spec fn event_fits(s: ServerState, e: ServerEvent) -> bool {
    match s {
        ServerState::AwaitQuery => e is Query || e is Malformed,
        ServerState::AwaitStat => e is Stat,
        ServerState::AwaitAck => e is Ack || e is Malformed,
        ServerState::Streaming { next_index } => e matches ServerEvent::FileData(_)
            && next_index < u32::MAX || e is FileEof,
        ServerState::Closed { .. } => false,
    }
}

/// The state the protocol prescribes after one event: the transition
/// relation of the server's diagram, state by state.
pub open spec fn spec_next_state(version: u32, s: ServerState, e: ServerEvent) -> ServerState {
    match e {
        ServerEvent::Query(q) => {
            if q.version != version || !spec_filename_ok(q.filename@) {
                ServerState::Closed { clean: false }
            } else {
                ServerState::AwaitStat
            }
        },
        ServerEvent::Malformed => ServerState::Closed { clean: false },
        ServerEvent::Stat { found, .. } => {
            if found {
                ServerState::AwaitAck
            } else {
                ServerState::Closed { clean: false }
            }
        },
        ServerEvent::Ack(a) => {
            if a.status == AckStatus::Accepted {
                ServerState::Streaming { next_index: 0u32 }
            } else {
                ServerState::Closed { clean: true }
            }
        },
        ServerEvent::FileData(_) => ServerState::Streaming {
            next_index: (s->Streaming_next_index + 1) as u32,
        },
        ServerEvent::FileEof => ServerState::Closed { clean: true },
    }
}

/// Protocol progression: from each state, the admitted events lead exactly
/// where the diagram says — the happy path walks the query to the lookup,
/// the found file to the acknowledgement, the accepted offer into streaming
/// and on to a clean close, while a mismatched version, an unsafe or absent
/// file, a rejected offer and a malformed message each end the connection.
pub proof fn lemma_protocol_progression(version: u32, s: ServerState, e: ServerEvent)
    requires
        event_fits(s, e),
    ensures
        e matches ServerEvent::Query(q) && q.version == version && spec_filename_ok(q.filename@)
            ==> spec_next_state(version, s, e) == ServerState::AwaitStat,
        e matches ServerEvent::Query(q) && q.version != version ==> spec_next_state(version, s, e)
            == (ServerState::Closed { clean: false }),
        e matches ServerEvent::Stat { found: true, .. } ==> spec_next_state(version, s, e)
            == ServerState::AwaitAck,
        e matches ServerEvent::Stat { found: false, .. } ==> spec_next_state(version, s, e)
            == (ServerState::Closed { clean: false }),
        e matches ServerEvent::Ack(a) && a.status == AckStatus::Accepted ==> spec_next_state(
            version,
            s,
            e,
        ) == (ServerState::Streaming { next_index: 0u32 }),
        e matches ServerEvent::Ack(a) && a.status == AckStatus::Rejected ==> spec_next_state(
            version,
            s,
            e,
        ) == (ServerState::Closed { clean: true }),
        ({
            match (s, e) {
                (
                    ServerState::Streaming { next_index },
                    ServerEvent::FileData(_),
                ) => spec_next_state(version, s, e) == (ServerState::Streaming {
                    next_index: (next_index + 1) as u32,
                }),
                _ => true,
            }
        }),
        e is FileEof ==> spec_next_state(version, s, e) == (ServerState::Closed { clean: true }),
        e is Malformed ==> spec_next_state(version, s, e) == (ServerState::Closed {
            clean: false,
        }),
{
}

/// The server half of one connection.
pub struct ServerMachine {
    /// The protocol version this server speaks.
    pub version: u32,
    /// The most bytes one chunk may carry.
    pub chunk_size: usize,
    /// The current state.
    pub state: ServerState,
}

impl ServerMachine {
    /// A machine at the start of a connection.
    pub fn new(version: u32, chunk_size: usize) -> (r: ServerMachine)
        ensures
            r.version == version,
            r.chunk_size == chunk_size,
            r.state == ServerState::AwaitQuery,
    {
        ServerMachine { version, chunk_size, state: ServerState::AwaitQuery }
    }

    /// Advances the machine by one event and says what to do.
    ///
    /// From any state, the admitted event reaches exactly the state the
    /// protocol prescribes: a good query leads to the lookup, a found file
    /// to the acknowledgement, an accepted offer to streaming, and every
    /// rejection, mismatch or malformed message to a closed connection.
    pub fn step(&mut self, e: ServerEvent) -> (d: ServerDirective)
        requires
            event_fits(old(self).state, e),
            e matches ServerEvent::FileData(data) ==> data@.len() <= old(self).chunk_size,
        ensures
            final(self).version == old(self).version,
            final(self).chunk_size == old(self).chunk_size,
            final(self).state == spec_next_state(old(self).version, old(self).state, e),
            match e {
                ServerEvent::Query(q) => {
                    if q.version != old(self).version {
                        &&& final(self).state == (ServerState::Closed { clean: false })
                        &&& d.reply matches Some(rep) && rep@ == ServerReplyView::Response(
                            FileResponseView::Error {
                                kind: Kind::UnsupportedVersion,
                                message: spec_decimal(old(self).version as nat),
                            },
                        )
                        &&& d.stat_file is None
                        &&& d.close
                        &&& d.error == Some(ErrorKind::Unsupported)
                    } else if !spec_filename_ok(q.filename@) {
                        &&& final(self).state == (ServerState::Closed { clean: false })
                        &&& d.reply matches Some(rep) && rep@ == ServerReplyView::Response(
                            FileResponseView::Error {
                                kind: Kind::NotFound,
                                message: Seq::<u8>::empty(),
                            },
                        )
                        &&& d.stat_file is None
                        &&& d.close
                        &&& d.error == Some(ErrorKind::NotFound)
                    } else {
                        &&& final(self).state == ServerState::AwaitStat
                        &&& d.reply is None
                        &&& d.stat_file matches Some(f) && f@ == q.filename@
                        &&& !d.close
                        &&& d.error is None
                    }
                },
                ServerEvent::Malformed => {
                    &&& final(self).state == (ServerState::Closed { clean: false })
                    &&& d.reply is None
                    &&& d.stat_file is None
                    &&& d.close
                    &&& d.error == Some(ErrorKind::InvalidData)
                },
                ServerEvent::Stat { found, file_size } => {
                    if found {
                        &&& final(self).state == ServerState::AwaitAck
                        &&& d.reply matches Some(rep) && rep@ == ServerReplyView::Response(
                            FileResponseView::Metadata { status: Status::Found, file_size },
                        )
                        &&& d.stat_file is None
                        &&& !d.close
                        &&& d.error is None
                    } else {
                        &&& final(self).state == (ServerState::Closed { clean: false })
                        &&& d.reply matches Some(rep) && rep@ == ServerReplyView::Response(
                            FileResponseView::Metadata {
                                status: Status::NotFound,
                                file_size: 0u64,
                            },
                        )
                        &&& d.stat_file is None
                        &&& d.close
                        &&& d.error == Some(ErrorKind::NotFound)
                    }
                },
                ServerEvent::Ack(a) => {
                    if a.status == AckStatus::Accepted {
                        &&& final(self).state == (ServerState::Streaming { next_index: 0u32 })
                        &&& d.reply is None
                        &&& d.stat_file is None
                        &&& !d.close
                        &&& d.error is None
                    } else {
                        &&& final(self).state == (ServerState::Closed { clean: true })
                        &&& d.reply is None
                        &&& d.stat_file is None
                        &&& d.close
                        &&& d.error is None
                    }
                },
                ServerEvent::FileData(data) => {
                    &&& old(self).state matches ServerState::Streaming { next_index }
                    &&& final(self).state == (ServerState::Streaming {
                        next_index: (old(self).state->Streaming_next_index + 1) as u32,
                    })
                    &&& d.reply matches Some(rep) && rep@ == ServerReplyView::Chunk(
                        FileChunkView {
                            index: old(self).state->Streaming_next_index,
                            data: data@,
                        },
                    )
                    &&& d.stat_file is None
                    &&& !d.close
                    &&& d.error is None
                },
                ServerEvent::FileEof => {
                    &&& final(self).state == (ServerState::Closed { clean: true })
                    &&& d.reply is None
                    &&& d.stat_file is None
                    &&& d.close
                    &&& d.error is None
                },
            },
    {
        match e {
            ServerEvent::Query(q) => {
                if q.version != self.version {
                    self.state = ServerState::Closed { clean: false };
                    let mut message: Vec<u8> = Vec::new();
                    push_decimal(&mut message, self.version as u64);
                    ServerDirective {
                        reply: Some(
                            ServerReply::Response(
                                FileResponse::Error { kind: Kind::UnsupportedVersion, message },
                            ),
                        ),
                        stat_file: None,
                        close: true,
                        error: Some(ErrorKind::Unsupported),
                    }
                } else if !filename_ok(q.filename.as_slice()) {
                    self.state = ServerState::Closed { clean: false };
                    ServerDirective {
                        reply: Some(
                            ServerReply::Response(
                                FileResponse::Error { kind: Kind::NotFound, message: Vec::new() },
                            ),
                        ),
                        stat_file: None,
                        close: true,
                        error: Some(ErrorKind::NotFound),
                    }
                } else {
                    self.state = ServerState::AwaitStat;
                    ServerDirective {
                        reply: None,
                        stat_file: Some(q.filename),
                        close: false,
                        error: None,
                    }
                }
            },
            ServerEvent::Malformed => {
                self.state = ServerState::Closed { clean: false };
                ServerDirective {
                    reply: None,
                    stat_file: None,
                    close: true,
                    error: Some(ErrorKind::InvalidData),
                }
            },
            ServerEvent::Stat { found, file_size } => {
                if found {
                    self.state = ServerState::AwaitAck;
                    ServerDirective {
                        reply: Some(
                            ServerReply::Response(
                                FileResponse::Metadata { status: Status::Found, file_size },
                            ),
                        ),
                        stat_file: None,
                        close: false,
                        error: None,
                    }
                } else {
                    self.state = ServerState::Closed { clean: false };
                    ServerDirective {
                        reply: Some(
                            ServerReply::Response(
                                FileResponse::Metadata { status: Status::NotFound, file_size: 0 },
                            ),
                        ),
                        stat_file: None,
                        close: true,
                        error: Some(ErrorKind::NotFound),
                    }
                }
            },
            ServerEvent::Ack(a) => {
                if a.status == AckStatus::Accepted {
                    self.state = ServerState::Streaming { next_index: 0 };
                    ServerDirective { reply: None, stat_file: None, close: false, error: None }
                } else {
                    self.state = ServerState::Closed { clean: true };
                    ServerDirective { reply: None, stat_file: None, close: true, error: None }
                }
            },
            ServerEvent::FileData(data) => {
                let index = match self.state {
                    ServerState::Streaming { next_index } => next_index,
                    _ => 0,
                };
                self.state = ServerState::Streaming { next_index: index + 1 };
                ServerDirective {
                    reply: Some(ServerReply::Chunk(FileChunk { index, data })),
                    stat_file: None,
                    close: false,
                    error: None,
                }
            },
            ServerEvent::FileEof => {
                self.state = ServerState::Closed { clean: true };
                ServerDirective { reply: None, stat_file: None, close: true, error: None }
            },
        }
    }

    /// What the machine is waiting for, so a runner knows which event to
    /// produce next.
    pub fn wants(&self) -> (r: ServerWant)
        ensures
            r == (match self.state {
                ServerState::AwaitQuery => ServerWant::RecvQuery,
                ServerState::AwaitStat => ServerWant::StatFile,
                ServerState::AwaitAck => ServerWant::RecvAck,
                ServerState::Streaming { .. } => ServerWant::ReadFile,
                ServerState::Closed { .. } => ServerWant::Done,
            }),
    {
        match self.state {
            ServerState::AwaitQuery => ServerWant::RecvQuery,
            ServerState::AwaitStat => ServerWant::StatFile,
            ServerState::AwaitAck => ServerWant::RecvAck,
            ServerState::Streaming { .. } => ServerWant::ReadFile,
            ServerState::Closed { .. } => ServerWant::Done,
        }
    }
}

/// The outside work the server machine is waiting on.
#[derive(Clone, Copy, Debug, PartialEq, Eq, Structural)]
pub enum ServerWant {
    RecvQuery,
    StatFile,
    RecvAck,
    ReadFile,
    Done,
}

/// Builds the opening query of a transfer.
pub fn build_query(version: u32, filename: Vec<u8>) -> (r: FileQuery)
    ensures
        r.version == version,
        r.filename@ == filename@,
{
    FileQuery { version, filename }
}

/// The acknowledgement a client owes for offered metadata: the offer is
/// rejected exactly when the file is larger than the client accepts.
pub fn ack_for_metadata(file_size: u64, max_file_size: u64) -> (r: TransferAck)
    ensures
        r.status == AckStatus::Rejected <==> file_size > max_file_size,
{
    if file_size > max_file_size {
        TransferAck { status: AckStatus::Rejected }
    } else {
        TransferAck { status: AckStatus::Accepted }
    }
}

/// The client's plan after reading the server's response.
#[derive(Clone, Copy, Debug, PartialEq, Eq, Structural)]
pub enum ClientPlan {
    /// Found and small enough: acknowledge with `Accepted` and receive.
    Download,
    /// Larger than the configured bound: acknowledge with `Rejected`.
    Reject,
    /// The server has no such file; send no acknowledgement.
    Missing,
    /// The server answered with a protocol error of this kind.
    ServerError(Kind),
}

/// Decides what a client with the given size bound does with a response.
pub fn plan_for_response(resp: &FileResponse, max_file_size: u64) -> (p: ClientPlan)
    ensures
        p == (match resp@ {
            FileResponseView::Metadata { status, file_size } => {
                if status is NotFound {
                    ClientPlan::Missing
                } else if file_size > max_file_size {
                    ClientPlan::Reject
                } else {
                    ClientPlan::Download
                }
            },
            FileResponseView::Error { kind, message } => ClientPlan::ServerError(kind),
        }),
{
    match resp {
        FileResponse::Metadata { status, file_size } => {
            if matches!(status, Status::NotFound) {
                ClientPlan::Missing
            } else if *file_size > max_file_size {
                ClientPlan::Reject
            } else {
                ClientPlan::Download
            }
        },
        FileResponse::Error { kind, message: _ } => ClientPlan::ServerError(*kind),
    }
}

/// One step of the client's receive loop.
pub enum RecvStep {
    /// Write these bytes to the sink; the running total grows to `total`.
    Append { data: Vec<u8>, total: u64 },
    /// The stream ended cleanly; `total` bytes arrived in all.
    Finished { total: u64 },
    /// The stream failed with this error.
    Failed(ErrorKind),
}

/// Folds one framed read into the client's receive loop: a chunk extends the
/// download, a clean end of stream finishes it, and any other failure is
/// surfaced unchanged.
pub fn receive_step(total: u64, r: Result<FileChunk, ErrorKind>) -> (s: RecvStep)
    requires
        r matches Ok(c) ==> total + c.data@.len() <= u64::MAX,
    ensures
        match r {
            Ok(c) => s matches RecvStep::Append { data, total: t } && data@ == c.data@ && t
                == total + c.data@.len(),
            Err(k) => {
                if k == ErrorKind::UnexpectedEof {
                    s matches RecvStep::Finished { total: t } && t == total
                } else {
                    s == RecvStep::Failed(k)
                }
            },
        },
{
    match r {
        Ok(c) => {
            let n = c.data.len() as u64;
            RecvStep::Append { data: c.data, total: total + n }
        },
        Err(k) => {
            if matches!(k, ErrorKind::UnexpectedEof) {
                RecvStep::Finished { total }
            } else {
                RecvStep::Failed(k)
            }
        },
    }
}

} // verus!
