//! The two services the toolkit ships: an echo service that answers after a
//! delay, and the file-transfer service that configures the protocol
//! machine.

use vstd::prelude::*;

use crate::bytes::push_all;
use crate::protocol::ServerMachine;

verus! {

/// A simple echo service that delays the echo response for a given number
/// of seconds. Primarily used for tests and baseline measurement.
pub struct DelayedEchoService {
    /// How long to wait, in seconds, before echoing.
    pub delay: u64,
}

/// The line block an echo connection answers with: every received line
/// followed by a line feed; no lines at all still answer one line feed.
pub open spec fn spec_echo_block_upto(lines: Seq<Seq<u8>>, n: int) -> Seq<u8>
    recommends
        0 <= n <= lines.len(),
    decreases n,
{
    if n <= 0 {
        Seq::empty()
    } else {
        spec_echo_block_upto(lines, n - 1) + lines[n - 1] + seq![10u8]
    }
}

/// The whole echo answer for the received lines.
pub open spec fn spec_echo_response(lines: Seq<Seq<u8>>) -> Seq<u8> {
    if lines.len() == 0 {
        seq![10u8]
    } else {
        spec_echo_block_upto(lines, lines.len() as int)
    }
}

impl DelayedEchoService {
    /// A service that echoes after `delay` seconds.
    pub fn new(delay: u64) -> (r: DelayedEchoService)
        ensures
            r.delay == delay,
    {
        DelayedEchoService { delay }
    }

    /// The bytes this service answers with, given the lines it received
    /// before the first empty one.
    pub fn echo_response(&self, lines: &Vec<Vec<u8>>) -> (r: Vec<u8>)
        ensures
            r@ == spec_echo_response(lines.deep_view()),
    {
        if lines.len() == 0 {
            let mut r: Vec<u8> = Vec::new();
            r.push(10);
            assert(r@ =~= spec_echo_response(lines.deep_view()));
            return r;
        }
        let mut r: Vec<u8> = Vec::new();
        let mut i: usize = 0;
        while i < lines.len()
            invariant
                i <= lines.deep_view().len(),
                r@ == spec_echo_block_upto(lines.deep_view(), i as int),
            decreases lines.deep_view().len() - i,
        {
            push_all(&mut r, lines[i].as_slice());
            r.push(10);
            i = i + 1;
            assert(lines.deep_view()[i - 1] == lines[i - 1]@);
            assert(r@ =~= spec_echo_block_upto(lines.deep_view(), i as int));
        }
        r
    }
}

/// Serves files under a base directory over the framed transfer protocol.
pub struct FileTransferService {
    /// The directory the served files live under, as a path in bytes.
    pub base_dir: Vec<u8>,
    /// The protocol version the server supports.
    pub protocol_version: u32,
    /// The size of each file chunk sent to the client.
    pub chunk_size: usize,
}

impl FileTransferService {
    /// A service that serves files under `base_dir`, speaking
    /// `protocol_version` and streaming in pieces of `chunk_size` bytes.
    pub fn new(base_dir: Vec<u8>, protocol_version: u32, chunk_size: usize) -> (r:
        FileTransferService)
        ensures
            r.base_dir@ == base_dir@,
            r.protocol_version == protocol_version,
            r.chunk_size == chunk_size,
    {
        FileTransferService { base_dir, protocol_version, chunk_size }
    }

    /// A fresh protocol machine for one connection.
    pub fn machine(&self) -> (r: ServerMachine)
        ensures
            r.version == self.protocol_version,
            r.chunk_size == self.chunk_size,
            r.state == crate::protocol::ServerState::AwaitQuery,
    {
        ServerMachine::new(self.protocol_version, self.chunk_size)
    }

    /// The path of a served file: the base directory, a separator, and the
    /// (already vetted) file name.
    pub fn file_path(&self, filename: &[u8]) -> (r: Vec<u8>)
        ensures
            r@ == self.base_dir@ + seq![47u8] + filename@,
    {
        let mut r: Vec<u8> = Vec::new();
        push_all(&mut r, self.base_dir.as_slice());
        r.push(47);
        push_all(&mut r, filename);
        assert(r@ =~= self.base_dir@ + seq![47u8] + filename@);
        r
    }
}

} // verus!
