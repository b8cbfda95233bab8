//! The typed front end of POSIX name resolution: address-family, socket-type
//! and protocol enums with their platform numbers, resolution hints, the
//! input checks the resolver makes before it ever reaches the operating
//! system, and the owned sequence of resolved records.
//!
//! The resolver calls themselves need the operating system and stay outside
//! the crate; what is here is everything about them that is a pure function
//! of plain values.

use vstd::prelude::*;

use crate::endpoint::Endpoint;
use crate::ErrorKind;

verus! {

/// Address family, carrying the Linux `AF_*` numbers.
#[derive(Clone, Copy, Debug, PartialEq, Eq, Structural)]
pub enum AddrFamily {
    Unspecified,
    Inet,
    Inet6,
}

/// Socket type, carrying the Linux `SOCK_*` numbers.
#[derive(Clone, Copy, Debug, PartialEq, Eq, Structural)]
pub enum SockType {
    Unspecified,
    Stream,
    Datagram,
    Raw,
    SeqPacket,
}

/// Transport protocol, carrying the Linux `IPPROTO_*` numbers.
#[derive(Clone, Copy, Debug, PartialEq, Eq, Structural)]
pub enum Protocol {
    Unspecified,
    Tcp,
    Udp,
    Sctp,
}

/// The `AF_*` number of a family: `AF_UNSPEC`, `AF_INET`, `AF_INET6`.
pub open spec fn spec_family_numeric(f: AddrFamily) -> i32 {
    match f {
        AddrFamily::Unspecified => 0,
        AddrFamily::Inet => 2,
        AddrFamily::Inet6 => 10,
    }
}

/// The family a number names, if any.
pub open spec fn spec_family_of_numeric(v: i32) -> Option<AddrFamily> {
    if v == 0 {
        Some(AddrFamily::Unspecified)
    } else if v == 2 {
        Some(AddrFamily::Inet)
    } else if v == 10 {
        Some(AddrFamily::Inet6)
    } else {
        None
    }
}

/// The `SOCK_*` number of a socket type.
pub open spec fn spec_socktype_numeric(t: SockType) -> i32 {
    match t {
        SockType::Unspecified => 0,
        SockType::Stream => 1,
        SockType::Datagram => 2,
        SockType::Raw => 3,
        SockType::SeqPacket => 5,
    }
}

/// The socket type a number names, if any.
pub open spec fn spec_socktype_of_numeric(v: i32) -> Option<SockType> {
    if v == 0 {
        Some(SockType::Unspecified)
    } else if v == 1 {
        Some(SockType::Stream)
    } else if v == 2 {
        Some(SockType::Datagram)
    } else if v == 3 {
        Some(SockType::Raw)
    } else if v == 5 {
        Some(SockType::SeqPacket)
    } else {
        None
    }
}

/// The `IPPROTO_*` number of a protocol.
pub open spec fn spec_protocol_numeric(p: Protocol) -> i32 {
    match p {
        Protocol::Unspecified => 0,
        Protocol::Tcp => 6,
        Protocol::Udp => 17,
        Protocol::Sctp => 132,
    }
}

/// The protocol a number names, if any.
pub open spec fn spec_protocol_of_numeric(v: i32) -> Option<Protocol> {
    if v == 0 {
        Some(Protocol::Unspecified)
    } else if v == 6 {
        Some(Protocol::Tcp)
    } else if v == 17 {
        Some(Protocol::Udp)
    } else if v == 132 {
        Some(Protocol::Sctp)
    } else {
        None
    }
}

impl AddrFamily {
    /// The platform number of this family.
    pub fn to_numeric(&self) -> (r: i32)
        ensures
            r == spec_family_numeric(*self),
    {
        match self {
            AddrFamily::Unspecified => 0,
            AddrFamily::Inet => 2,
            AddrFamily::Inet6 => 10,
        }
    }

    /// The family a platform number names; `None` for any other number.
    pub fn from_numeric(v: i32) -> (r: Option<AddrFamily>)
        ensures
            r == spec_family_of_numeric(v),
    {
        if v == 0 {
            Some(AddrFamily::Unspecified)
        } else if v == 2 {
            Some(AddrFamily::Inet)
        } else if v == 10 {
            Some(AddrFamily::Inet6)
        } else {
            None
        }
    }
}

impl SockType {
    /// The platform number of this socket type.
    pub fn to_numeric(&self) -> (r: i32)
        ensures
            r == spec_socktype_numeric(*self),
    {
        match self {
            SockType::Unspecified => 0,
            SockType::Stream => 1,
            SockType::Datagram => 2,
            SockType::Raw => 3,
            SockType::SeqPacket => 5,
        }
    }

    /// The socket type a platform number names; `None` for any other number.
    pub fn from_numeric(v: i32) -> (r: Option<SockType>)
        ensures
            r == spec_socktype_of_numeric(v),
    {
        if v == 0 {
            Some(SockType::Unspecified)
        } else if v == 1 {
            Some(SockType::Stream)
        } else if v == 2 {
            Some(SockType::Datagram)
        } else if v == 3 {
            Some(SockType::Raw)
        } else if v == 5 {
            Some(SockType::SeqPacket)
        } else {
            None
        }
    }
}

impl Protocol {
    /// The platform number of this protocol.
    pub fn to_numeric(&self) -> (r: i32)
        ensures
            r == spec_protocol_numeric(*self),
    {
        match self {
            Protocol::Unspecified => 0,
            Protocol::Tcp => 6,
            Protocol::Udp => 17,
            Protocol::Sctp => 132,
        }
    }

    /// The protocol a platform number names; `None` for any other number.
    pub fn from_numeric(v: i32) -> (r: Option<Protocol>)
        ensures
            r == spec_protocol_of_numeric(v),
    {
        if v == 0 {
            Some(Protocol::Unspecified)
        } else if v == 6 {
            Some(Protocol::Tcp)
        } else if v == 17 {
            Some(Protocol::Udp)
        } else if v == 132 {
            Some(Protocol::Sctp)
        } else {
            None
        }
    }
}

/// Every family round-trips through its platform number.
pub proof fn lemma_family_numeric_roundtrip(f: AddrFamily)
    ensures
        spec_family_of_numeric(spec_family_numeric(f)) == Some(f),
{
}

/// Every socket type round-trips through its platform number.
pub proof fn lemma_socktype_numeric_roundtrip(t: SockType)
    ensures
        spec_socktype_of_numeric(spec_socktype_numeric(t)) == Some(t),
{
}

/// Every protocol round-trips through its platform number.
pub proof fn lemma_protocol_numeric_roundtrip(p: Protocol)
    ensures
        spec_protocol_of_numeric(spec_protocol_numeric(p)) == Some(p),
{
}

impl Default for AddrFamily {
    /// The default family leaves the choice to the resolver.
    fn default() -> (r: AddrFamily)
        ensures
            r == AddrFamily::Unspecified,
    {
        AddrFamily::Unspecified
    }
}

impl Default for SockType {
    /// The default socket type leaves the choice to the resolver.
    fn default() -> (r: SockType)
        ensures
            r == SockType::Unspecified,
    {
        SockType::Unspecified
    }
}

impl Default for Protocol {
    /// The default protocol leaves the choice to the resolver.
    fn default() -> (r: Protocol)
        ensures
            r == Protocol::Unspecified,
    {
        Protocol::Unspecified
    }
}

/// Optional preferences narrowing what the resolver returns.
#[derive(Clone, Copy, Debug, PartialEq, Eq, Structural)]
pub struct AddrInfoHints {
    pub flags: i32,
    pub family: AddrFamily,
    pub socktype: SockType,
    pub protocol: Protocol,
}

impl AddrInfoHints {
    /// Hints from all four preferences.
    pub fn new(flags: i32, family: AddrFamily, socktype: SockType, protocol: Protocol) -> (r:
        AddrInfoHints)
        ensures
            r == (AddrInfoHints { flags, family, socktype, protocol }),
    {
        AddrInfoHints { flags, family, socktype, protocol }
    }
}

impl Default for AddrInfoHints {
    /// No preference at all: no flags, and everything unspecified.
    fn default() -> (r: AddrInfoHints)
        ensures
            r == (AddrInfoHints {
                flags: 0,
                family: AddrFamily::Unspecified,
                socktype: SockType::Unspecified,
                protocol: Protocol::Unspecified,
            }),
    {
        AddrInfoHints {
            flags: 0,
            family: AddrFamily::Unspecified,
            socktype: SockType::Unspecified,
            protocol: Protocol::Unspecified,
        }
    }
}

/// The hints a resolution actually runs with: the given ones, or the
/// no-preference default.
pub fn effective_hints(hints: Option<AddrInfoHints>) -> (r: AddrInfoHints)
    ensures
        match hints {
            Some(h) => r == h,
            None => r == (AddrInfoHints {
                flags: 0,
                family: AddrFamily::Unspecified,
                socktype: SockType::Unspecified,
                protocol: Protocol::Unspecified,
            }),
        },
{
    match hints {
        Some(h) => h,
        None => AddrInfoHints {
            flags: 0,
            family: AddrFamily::Unspecified,
            socktype: SockType::Unspecified,
            protocol: Protocol::Unspecified,
        },
    }
}

/// A NUL byte somewhere in `s`, which no C string can carry.
pub open spec fn spec_has_nul(s: Seq<u8>) -> bool {
    exists|i: int| 0 <= i < s.len() && s[i] == 0
}

/// Scans for a NUL byte.
pub fn has_nul(s: &[u8]) -> (r: bool)
    ensures
        r == spec_has_nul(s@),
{
    let mut i: usize = 0;
    while i < s.len()
        invariant
            i <= s@.len(),
            forall|j: int| 0 <= j < i ==> s@[j] != 0,
        decreases s@.len() - i,
    {
        if s[i] == 0 {
            return true;
        }
        i = i + 1;
    }
    false
}

/// A resolution request the operating system can be asked: at least one of
/// host and service is present, and neither carries an interior NUL.
pub open spec fn spec_resolve_input_ok(host: Option<Seq<u8>>, service: Option<Seq<u8>>) -> bool {
    &&& (host is Some || service is Some)
    &&& (host matches Some(h) ==> !spec_has_nul(h))
    &&& (service matches Some(s) ==> !spec_has_nul(s))
}

/// Checks a resolution request before it reaches the operating system:
/// asking for neither a host nor a service, or handing over a string with an
/// interior NUL, is invalid input — exactly then.
pub fn check_resolve_input(host: Option<&[u8]>, service: Option<&[u8]>) -> (r: Result<
    (),
    ErrorKind,
>)
    ensures
        r is Ok <==> spec_resolve_input_ok(
            match host {
                Some(h) => Some(h@),
                None => None,
            },
            match service {
                Some(s) => Some(s@),
                None => None,
            },
        ),
        r matches Err(k) ==> k == ErrorKind::InvalidInput,
{
    match (host, service) {
        (None, None) => Err(ErrorKind::InvalidInput),
        _ => {
            if let Some(h) = host {
                if has_nul(h) {
                    return Err(ErrorKind::InvalidInput);
                }
            }
            if let Some(s) = service {
                if has_nul(s) {
                    return Err(ErrorKind::InvalidInput);
                }
            }
            Ok(())
        },
    }
}

/// The `EAI_SYSTEM` return of the Linux resolver, the one code that says
/// "read errno" rather than naming its own explanation.
pub open spec fn spec_gai_system_code() -> i32 {
    -11i32
}

/// Classifies a non-zero resolver return: the system code surfaces the
/// current OS error, every other code only has the resolver's own text.
pub fn gai_error_kind(ret: i32) -> (r: ErrorKind)
    ensures
        r == ErrorKind::Io <==> ret == spec_gai_system_code(),
        r == ErrorKind::Io || r == ErrorKind::Other,
{
    if ret == -11 {
        ErrorKind::Io
    } else {
        ErrorKind::Other
    }
}

/// Classifies one resolved entry's address family: only IPv4 and IPv6
/// records can be materialized; any other family is unsupported and the
/// entry is skipped.
pub fn record_family(v: i32) -> (r: Result<AddrFamily, ErrorKind>)
    ensures
        v == 2 ==> r == Ok::<AddrFamily, ErrorKind>(AddrFamily::Inet),
        v == 10 ==> r == Ok::<AddrFamily, ErrorKind>(AddrFamily::Inet6),
        v != 2 && v != 10 ==> r == Err::<AddrFamily, ErrorKind>(ErrorKind::Unsupported),
{
    if v == 2 {
        Ok(AddrFamily::Inet)
    } else if v == 10 {
        Ok(AddrFamily::Inet6)
    } else {
        Err(ErrorKind::Unsupported)
    }
}

/// One resolved address record.
#[derive(Clone, Debug, PartialEq, Eq)]
pub struct AddrInfo {
    pub flags: i32,
    pub family: AddrFamily,
    pub socktype: SockType,
    pub protocol: Protocol,
    pub socket_addr: Endpoint,
    /// The canonical host name, present only when it was asked for and the
    /// resolver returned one.
    pub canonname: Option<Vec<u8>>,
}

/// The caller-owned sequence of resolution results: finite, ordered as the
/// resolver returned them, consumed front to back, never restartable, and
/// fused once exhausted. Each item is either a materialized record or the
/// error that one entry produced.
pub struct ResultSequence {
    items: Vec<Result<AddrInfo, ErrorKind>>,
}

impl ResultSequence {
    /// The items still to be yielded, in order.
    pub closed spec fn remaining(&self) -> Seq<Result<AddrInfo, ErrorKind>> {
        self.items@
    }

    /// A sequence over the given items.
    pub fn new(items: Vec<Result<AddrInfo, ErrorKind>>) -> (r: ResultSequence)
        ensures
            r.remaining() == items@,
    {
        ResultSequence { items }
    }

    /// The next item: the front of what remains, or `None` — and forever
    /// `None` — once everything was yielded.
    pub fn next(&mut self) -> (r: Option<Result<AddrInfo, ErrorKind>>)
        ensures
            old(self).remaining().len() == 0 ==> r is None && final(self).remaining()
                == old(self).remaining(),
            old(self).remaining().len() > 0 ==> r == Some(old(self).remaining()[0])
                && final(self).remaining() == old(self).remaining().drop_first(),
    {
        if self.items.len() == 0 {
            None
        } else {
            let item = self.items.remove(0);
            assert(self.items@ =~= old(self).items@.drop_first());
            Some(item)
        }
    }

    /// How many items remain.
    pub fn len(&self) -> (r: usize)
        ensures
            r == self.remaining().len(),
    {
        self.items.len()
    }
}

} // verus!
