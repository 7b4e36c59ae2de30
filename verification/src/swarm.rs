//! The node's transport and listener plan, and the stream protocol
//! identifier. The swarm itself — identity generation, transport
//! construction, binding — happens outside the library; what stands here is
//! the plan it must follow: which protocol incoming streams are accepted
//! under, and which wildcard listeners are requested.

use vstd::prelude::*;

verus! {

/// Address family of a wildcard listener.
#[derive(Debug, PartialEq, Eq)]
pub enum IpVersion {
    /// Wildcard IPv4 (all interfaces).
    V4,
    /// Wildcard IPv6 (all interfaces).
    V6,
}

/// Which of the node's two transports a listener belongs to.
#[derive(Debug, PartialEq, Eq)]
pub enum TransportKind {
    /// The datagram-oriented secure transport; configured, but not bound to
    /// a listener in the default plan.
    Quic,
    /// The browser-compatible direct transport over UDP, with a fresh
    /// in-memory certificate each run.
    WebRtcDirect,
}

/// One listener to bind: a transport on a wildcard address. Port 0 asks the
/// operating system for an ephemeral port.
#[derive(Debug, PartialEq, Eq)]
pub struct ListenAddress {
    /// The transport to bind.
    pub transport: TransportKind,
    /// The wildcard address family.
    pub ip: IpVersion,
    /// The UDP port to request; 0 for an ephemeral one.
    pub port: u16,
}

/// A protocol identifier is a non-empty path-like name beginning with an
/// ASCII slash.
pub open spec fn protocol_id_valid(p: Seq<u8>) -> bool {
    p.len() > 0 && p[0] == 47u8
}

/// The identifier under which incoming peer streams are accepted. Fixed at
/// construction; never negotiated or versioned.
pub struct ProtocolId {
    bytes: Vec<u8>,
}

impl ProtocolId {
    /// The identifier's bytes.
    pub closed spec fn spec_bytes(self) -> Seq<u8> {
        self.bytes@
    }

    /// Every constructed identifier satisfies the naming rule.
    pub open spec fn wf(self) -> bool {
        protocol_id_valid(self.spec_bytes())
    }

    /// Make a protocol identifier from its name. Succeeds exactly when the
    /// name is non-empty and begins with a slash; the bytes are kept as
    /// given.
    pub fn new(bytes: Vec<u8>) -> (r: Option<Self>)
        ensures
            r is Some <==> protocol_id_valid(bytes@),
            r matches Some(p) ==> p.spec_bytes() == bytes@ && p.wf(),
    {
        if bytes.len() > 0 && bytes[0] == 47 {
            Some(ProtocolId { bytes })
        } else {
            None
        }
    }

    /// Read the identifier's bytes back.
    pub fn bytes(&self) -> (r: &Vec<u8>)
        ensures
            r@ == self.spec_bytes(),
    {
        &self.bytes
    }
}

/// The name of the generation stream protocol: `/llama`.
pub open spec fn llama_protocol_spec() -> Seq<u8> {
    seq![47u8, 108u8, 108u8, 97u8, 109u8, 97u8]
}

/// The protocol identifier the node registers: `/llama`.
pub fn llama_protocol() -> (r: ProtocolId)
    ensures
        r.spec_bytes() == llama_protocol_spec(),
        r.wf(),
{
    let mut v: Vec<u8> = Vec::new();
    v.push(47);
    v.push(108);
    v.push(108);
    v.push(97);
    v.push(109);
    v.push(97);
    proof {
        assert(v@ =~= llama_protocol_spec());
        assert(protocol_id_valid(v@));
    }
    ProtocolId { bytes: v }
}

/// The listeners the default plan binds: the direct transport on wildcard
/// IPv6 and then wildcard IPv4, both on an ephemeral UDP port. The datagram
/// transport is configured but bound to no listener here.
pub fn default_listen_plan() -> (r: Vec<ListenAddress>)
    ensures
        r@.len() == 2,
        r@[0] == (ListenAddress {
            transport: TransportKind::WebRtcDirect,
            ip: IpVersion::V6,
            port: 0,
        }),
        r@[1] == (ListenAddress {
            transport: TransportKind::WebRtcDirect,
            ip: IpVersion::V4,
            port: 0,
        }),
{
    let mut v: Vec<ListenAddress> = Vec::new();
    v.push(ListenAddress { transport: TransportKind::WebRtcDirect, ip: IpVersion::V6, port: 0 });
    v.push(ListenAddress { transport: TransportKind::WebRtcDirect, ip: IpVersion::V4, port: 0 });
    v
}

} // verus!
