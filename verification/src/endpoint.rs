//! Concrete IPv4/IPv6 endpoints and their numeric text forms.
//!
//! Reverse resolution with numeric flags asks for no lookup at all: the host
//! text is the address written out and the service text is the port in
//! decimal. Both are computed here and verified; only non-numeric reverse
//! lookups need the operating system.

use vstd::prelude::*;

use crate::bytes::{push_decimal, push_hex, spec_decimal, spec_hex};

verus! {

/// A concrete socket endpoint: an IPv4 or IPv6 address with a port.
#[derive(Clone, Debug, PartialEq, Eq)]
pub enum Endpoint {
    V4 { a: u8, b: u8, c: u8, d: u8, port: u16 },
    V6 { segments: Vec<u16>, port: u16 },
}

impl Endpoint {
    /// An IPv6 endpoint always carries its eight 16-bit segments.
    pub open spec fn wf(&self) -> bool {
        match self {
            Endpoint::V4 { .. } => true,
            Endpoint::V6 { segments, .. } => segments@.len() == 8,
        }
    }

    /// An IPv4 endpoint from its four octets and port.
    pub fn v4(a: u8, b: u8, c: u8, d: u8, port: u16) -> (r: Endpoint)
        ensures
            r == (Endpoint::V4 { a, b, c, d, port }),
            r.wf(),
    {
        Endpoint::V4 { a, b, c, d, port }
    }

    /// An IPv6 endpoint from its eight segments and port.
    pub fn v6(segments: Vec<u16>, port: u16) -> (r: Endpoint)
        requires
            segments@.len() == 8,
        ensures
            r matches Endpoint::V6 { segments: s, port: p } && s@ == segments@ && p == port,
            r.wf(),
    {
        Endpoint::V6 { segments, port }
    }

    /// The endpoint's port.
    pub fn port(&self) -> (r: u16)
        ensures
            r == spec_endpoint_port(self),
    {
        match self {
            Endpoint::V4 { port, .. } => *port,
            Endpoint::V6 { port, .. } => *port,
        }
    }
}

/// The endpoint's port.
pub open spec fn spec_endpoint_port(e: &Endpoint) -> u16 {
    match e {
        Endpoint::V4 { port, .. } => *port,
        Endpoint::V6 { port, .. } => *port,
    }
}

/// Dotted-quad text of an IPv4 address.
pub open spec fn spec_ipv4_text(a: u8, b: u8, c: u8, d: u8) -> Seq<u8> {
    spec_decimal(a as nat) + seq![46u8] + spec_decimal(b as nat) + seq![46u8] + spec_decimal(
        c as nat,
    ) + seq![46u8] + spec_decimal(d as nat)
}

/// How many zero segments stand in a row from position `i` on.
pub open spec fn spec_zero_run_len(segs: Seq<u16>, i: int) -> int
    decreases segs.len() - i,
{
    if i < 0 || i >= segs.len() || segs[i] != 0 {
        0
    } else {
        1 + spec_zero_run_len(segs, i + 1)
    }
}

/// The longest zero run whose start is at or after `i`, as `(start, len)`;
/// on a tie the leftmost run wins, and no run at all reads as length zero.
pub open spec fn spec_best_zero_run(segs: Seq<u16>, i: int) -> (int, int)
    decreases segs.len() - i,
{
    if i >= segs.len() {
        (segs.len() as int, 0)
    } else {
        let rest = spec_best_zero_run(segs, i + 1);
        let cur = spec_zero_run_len(segs, i);
        if cur >= rest.1 {
            (i, cur)
        } else {
            rest
        }
    }
}

/// The hexadecimal segments `[from, to)` joined with colons.
pub open spec fn spec_hex_join(segs: Seq<u16>, from: int, to: int) -> Seq<u8>
    decreases to - from,
{
    if from >= to {
        Seq::empty()
    } else if to == from + 1 {
        spec_hex(segs[from] as nat)
    } else {
        spec_hex_join(segs, from, to - 1) + seq![58u8] + spec_hex(segs[to - 1] as nat)
    }
}

/// IPv6 address text: lower-case hexadecimal segments joined with colons,
/// with the longest run of two or more zero segments shortened to `::`
/// (the leftmost such run on a tie).
pub open spec fn spec_ipv6_text(segs: Seq<u16>) -> Seq<u8> {
    let best = spec_best_zero_run(segs, 0);
    if best.1 < 2 {
        spec_hex_join(segs, 0, segs.len() as int)
    } else {
        spec_hex_join(segs, 0, best.0) + seq![58u8, 58u8] + spec_hex_join(
            segs,
            best.0 + best.1,
            segs.len() as int,
        )
    }
}

/// The numeric host text of an endpoint.
pub open spec fn spec_host_text(e: &Endpoint) -> Seq<u8> {
    match e {
        Endpoint::V4 { a, b, c, d, .. } => spec_ipv4_text(*a, *b, *c, *d),
        Endpoint::V6 { segments, .. } => spec_ipv6_text(segments@),
    }
}

/// Measures the zero run starting at `i`.
fn zero_run_len(segs: &Vec<u16>, i: usize) -> (r: usize)
    requires
        i <= segs@.len(),
    ensures
        r == spec_zero_run_len(segs@, i as int),
        i + r <= segs@.len(),
    decreases segs@.len() - i,
{
    if i >= segs.len() {
        0
    } else if segs[i] != 0 {
        0
    } else {
        1 + zero_run_len(segs, i + 1)
    }
}

/// Finds the longest zero run starting at or after `i`.
fn best_zero_run(segs: &Vec<u16>, i: usize) -> (r: (usize, usize))
    requires
        i <= segs@.len(),
    ensures
        (r.0 as int, r.1 as int) == spec_best_zero_run(segs@, i as int),
        r.0 + r.1 <= segs@.len(),
    decreases segs@.len() - i,
{
    if i >= segs.len() {
        (segs.len(), 0)
    } else {
        let rest = best_zero_run(segs, i + 1);
        let cur = zero_run_len(segs, i);
        if cur >= rest.1 {
            (i, cur)
        } else {
            rest
        }
    }
}

/// Appends the hexadecimal segments `[from, to)` joined with colons.
fn push_hex_join(buf: &mut Vec<u8>, segs: &Vec<u16>, from: usize, to: usize)
    requires
        from <= to <= segs@.len(),
    ensures
        final(buf)@ == old(buf)@ + spec_hex_join(segs@, from as int, to as int),
{
    let mut i = from;
    while i < to
        invariant
            from <= i <= to <= segs@.len(),
            buf@ == old(buf)@ + spec_hex_join(segs@, from as int, i as int),
        decreases to - i,
    {
        if i > from {
            buf.push(58);
        }
        push_hex(buf, segs[i]);
        i = i + 1;
        assert(buf@ =~= old(buf)@ + spec_hex_join(segs@, from as int, i as int));
    }
}

/// The numeric host text of an endpoint: dotted-quad for IPv4, shortened
/// hexadecimal for IPv6.
pub fn host_text(e: &Endpoint) -> (r: Vec<u8>)
    requires
        e.wf(),
    ensures
        r@ == spec_host_text(e),
{
    match e {
        Endpoint::V4 { a, b, c, d, .. } => {
            let mut r: Vec<u8> = Vec::new();
            push_decimal(&mut r, *a as u64);
            r.push(46);
            push_decimal(&mut r, *b as u64);
            r.push(46);
            push_decimal(&mut r, *c as u64);
            r.push(46);
            push_decimal(&mut r, *d as u64);
            assert(r@ =~= spec_ipv4_text(*a, *b, *c, *d));
            r
        },
        Endpoint::V6 { segments, .. } => {
            let mut r: Vec<u8> = Vec::new();
            let best = best_zero_run(segments, 0);
            if best.1 < 2 {
                push_hex_join(&mut r, segments, 0, segments.len());
            } else {
                push_hex_join(&mut r, segments, 0, best.0);
                r.push(58);
                r.push(58);
                let ghost mid = r@;
                push_hex_join(&mut r, segments, best.0 + best.1, segments.len());
                proof {
                    assert(mid =~= spec_hex_join(segments@, 0, best.0 as int) + seq![58u8, 58u8]);
                    assert(r@ =~= spec_ipv6_text(segments@));
                }
            }
            r
        },
    }
}

/// The numeric service text of an endpoint: the port in decimal.
pub fn service_text(e: &Endpoint) -> (r: Vec<u8>)
    ensures
        r@ == spec_decimal(spec_endpoint_port(e) as nat),
{
    let mut r: Vec<u8> = Vec::new();
    push_decimal(&mut r, e.port() as u64);
    r
}

/// Reverse resolution without lookups: with both numeric flags set, an
/// endpoint resolves to exactly its address text and its port text.
pub fn reverse_resolve_numeric(e: &Endpoint) -> (r: (Vec<u8>, Vec<u8>))
    requires
        e.wf(),
    ensures
        r.0@ == spec_host_text(e),
        r.1@ == spec_decimal(spec_endpoint_port(e) as nat),
{
    (host_text(e), service_text(e))
}

} // verus!
