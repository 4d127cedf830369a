//! Connection identity model: the key and timestamps that identify one TCP
//! flow observed across captured packets.
//!
//! A connection is identified canonically by ordering its two endpoints
//! deterministically — the numerically smaller (address, port) pair is
//! always the source — so packets flowing in either direction map to the
//! same identity. The `flow_key` is an opaque discriminator the capture
//! layer supplies to tell apart connections that collide on the 4-tuple;
//! this model carries it unchanged. Termination detection belongs to the
//! surrounding reassembly layer; this model only records its outcome.

use vstd::prelude::*;

use crate::address::IpAddress;
use crate::address::bytes16_eq;

verus! {

broadcast use vstd::array::group_array_axioms;

/// A capture timestamp: a whole-second count and the microseconds into that
/// second, matching the resolution of the capture timestamp source.
#[derive(Clone, Copy, Debug, PartialEq, Eq, Hash)]
pub struct Timestamp {
    pub seconds: i64,
    pub microseconds: i64,
}

impl Timestamp {
    /// The microsecond part always lies in `[0, 1_000_000)`.
    pub open spec fn wf(self) -> bool {
        0 <= self.microseconds < 1_000_000
    }

    /// Build a timestamp; the microsecond part must lie in `[0, 1_000_000)`.
    pub fn new(seconds: i64, microseconds: i64) -> (r: Timestamp)
        requires
            0 <= microseconds < 1_000_000,
        ensures
            r.seconds == seconds,
            r.microseconds == microseconds,
            r.wf(),
    {
        Timestamp { seconds, microseconds }
    }
}

/// One end of a connection: an address and a port.
#[derive(Clone, Copy, Debug, PartialEq, Eq, Hash)]
pub struct Endpoint {
    pub addr: IpAddress,
    pub port: u16,
}

/// Strict lexicographic order on byte sequences of equal length.
pub open spec fn bytes_lt(a: Seq<u8>, b: Seq<u8>) -> bool
    decreases a.len(),
{
    if a.len() == 0 || b.len() == 0 {
        false
    } else if a[0] != b[0] {
        a[0] < b[0]
    } else {
        bytes_lt(a.drop_first(), b.drop_first())
    }
}

/// On equal-length sequences, `bytes_lt` is a strict total order: it is
/// asymmetric, and two sequences that each fail to precede the other are
/// equal.
pub proof fn lemma_bytes_lt_trichotomy(a: Seq<u8>, b: Seq<u8>)
    requires
        a.len() == b.len(),
    ensures
        bytes_lt(a, b) ==> !bytes_lt(b, a),
        !bytes_lt(a, b) && !bytes_lt(b, a) ==> a == b,
    decreases a.len(),
{
    if a.len() == 0 {
        assert(a =~= b);
    } else if a[0] == b[0] {
        lemma_bytes_lt_trichotomy(a.drop_first(), b.drop_first());
        if !bytes_lt(a, b) && !bytes_lt(b, a) {
            assert(a.drop_first() == b.drop_first());
            assert forall|i: int| 0 <= i < a.len() implies a[i] == b[i] by {
                if i > 0 {
                    assert(a[i] == a.drop_first()[i - 1]);
                    assert(b[i] == b.drop_first()[i - 1]);
                }
            }
            assert(a =~= b);
        }
    }
}

/// Whether the first buffer strictly precedes the second in lexicographic
/// order.
pub fn bytes16_lt(a: &[u8; 16], b: &[u8; 16]) -> (r: bool)
    ensures
        r == bytes_lt(a@, b@),
{
    let mut i: usize = 0;
    proof {
        assert(a@.skip(0) =~= a@);
        assert(b@.skip(0) =~= b@);
    }
    while i < 16
        invariant
            i <= 16,
            bytes_lt(a@, b@) == bytes_lt(a@.skip(i as int), b@.skip(i as int)),
        decreases 16 - i,
    {
        if a[i] < b[i] {
            return true;
        }
        if a[i] > b[i] {
            return false;
        }
        proof {
            assert(a@.skip(i as int).drop_first() =~= a@.skip(i as int + 1));
            assert(b@.skip(i as int).drop_first() =~= b@.skip(i as int + 1));
        }
        i += 1;
    }
    false
}

/// Strict order on endpoints: by version tag, then by the address buffer
/// lexicographically, then by port.
pub open spec fn endpoint_lt(a: Endpoint, b: Endpoint) -> bool {
    ||| a.addr.version < b.addr.version
    ||| (a.addr.version == b.addr.version && bytes_lt(a.addr.bytes@, b.addr.bytes@))
    ||| (a.addr.version == b.addr.version && a.addr.bytes@ == b.addr.bytes@ && a.port < b.port)
}

/// Non-strict order on endpoints: strictly smaller, or equal.
pub open spec fn endpoint_le(a: Endpoint, b: Endpoint) -> bool {
    endpoint_lt(a, b) || a == b
}

/// `endpoint_le` orders any two endpoints, and two endpoints below each
/// other are equal.
pub proof fn lemma_endpoint_le_total(a: Endpoint, b: Endpoint)
    ensures
        endpoint_le(a, b) || endpoint_le(b, a),
        endpoint_le(a, b) && endpoint_le(b, a) ==> a == b,
{
    lemma_bytes_lt_trichotomy(a.addr.bytes@, b.addr.bytes@);
    if !endpoint_lt(a, b) && !endpoint_lt(b, a) {
        assert(a.addr.bytes@ == b.addr.bytes@);
        assert(a.addr.bytes =~= b.addr.bytes);
        assert(a == b);
    }
}

/// Whether `a` comes no later than `b` in the canonical endpoint order.
pub fn endpoint_le_exec(a: &Endpoint, b: &Endpoint) -> (r: bool)
    ensures
        r == endpoint_le(*a, *b),
{
    proof {
        lemma_endpoint_le_total(*a, *b);
    }
    if a.addr.version != b.addr.version {
        a.addr.version < b.addr.version
    } else if bytes16_eq(&a.addr.bytes, &b.addr.bytes) {
        a.port <= b.port
    } else {
        bytes16_lt(&a.addr.bytes, &b.addr.bytes)
    }
}

/// The two endpoints of a connection in canonical order: the smaller pair
/// first.
pub open spec fn canonical_pair(a: Endpoint, b: Endpoint) -> (Endpoint, Endpoint) {
    if endpoint_le(a, b) {
        (a, b)
    } else {
        (b, a)
    }
}

/// Both directions of one flow yield one identity: swapping the two
/// endpoints leaves the canonical pair unchanged.
pub proof fn lemma_canonical_pair_symmetric(a: Endpoint, b: Endpoint)
    ensures
        canonical_pair(a, b) == canonical_pair(b, a),
{
    lemma_endpoint_le_total(a, b);
}

/// Identity and lifecycle record of one observed TCP flow. The endpoints
/// are stored in canonical order; together with `flow_key` they identify the
/// connection: two packets belong to the same connection exactly when their
/// canonicalized endpoint pairs and flow keys agree.
#[derive(Clone, Copy, Debug, PartialEq, Eq, Hash)]
pub struct TcpConnection {
    pub src_addr: IpAddress,
    pub dst_addr: IpAddress,
    pub src_port: u16,
    pub dst_port: u16,
    pub flow_key: u32,
    pub start_time: Timestamp,
    pub end_time: Option<Timestamp>,
}

impl TcpConnection {
    /// The source endpoint, the canonically smaller of the pair.
    pub open spec fn src_endpoint(self) -> Endpoint {
        Endpoint { addr: self.src_addr, port: self.src_port }
    }

    /// The destination endpoint, the canonically larger of the pair.
    pub open spec fn dst_endpoint(self) -> Endpoint {
        Endpoint { addr: self.dst_addr, port: self.dst_port }
    }

    /// Well-formedness: the endpoints stand in canonical order, the start
    /// time is well formed, and so is the end time once set.
    pub open spec fn wf(self) -> bool {
        &&& endpoint_le(self.src_endpoint(), self.dst_endpoint())
        &&& self.start_time.wf()
        &&& self.end_time matches Some(t) ==> t.wf()
    }

    /// Create the record for a flow first observed between endpoints `a` and
    /// `b`: the endpoints are stored in canonical order, so either direction
    /// of the same flow yields the same identity; the end time starts
    /// absent.
    pub fn new(a: Endpoint, b: Endpoint, flow_key: u32, start_time: Timestamp) -> (r:
        TcpConnection)
        requires
            start_time.wf(),
        ensures
            (r.src_endpoint(), r.dst_endpoint()) == canonical_pair(a, b),
            r.flow_key == flow_key,
            r.start_time == start_time,
            r.end_time is None,
            r.wf(),
    {
        proof {
            lemma_endpoint_le_total(a, b);
        }
        let (s, d) = if endpoint_le_exec(&a, &b) {
            (a, b)
        } else {
            (b, a)
        };
        TcpConnection {
            src_addr: s.addr,
            dst_addr: d.addr,
            src_port: s.port,
            dst_port: d.port,
            flow_key,
            start_time,
            end_time: None,
        }
    }

    /// Record the termination time observed by the reassembly layer. The
    /// first recorded time is kept for good: once the end time is set, the
    /// record never changes again.
    pub fn record_termination(&mut self, t: Timestamp)
        requires
            t.wf(),
        ensures
            old(self).end_time is Some ==> *final(self) == *old(self),
            old(self).end_time is None ==> *final(self) == (TcpConnection {
                end_time: Some(t),
                ..*old(self)
            }),
            old(self).wf() ==> final(self).wf(),
    {
        if self.end_time.is_none() {
            self.end_time = Some(t);
        }
    }
}

} // verus!
