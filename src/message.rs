//! The protocol's values and the wire layout of its requests.
use vstd::prelude::*;

verus! {

/// UDP port on which a gateway listens for NAT-PMP requests.
pub const NATPMP_PORT: u16 = 5351;

/// How many receives the client attempts before it gives up on a reply.
pub const NATPMP_MAX_ATTEMPS: u32 = 9;

/// Transport protocol of a port mapping.
#[derive(Clone, Copy, Debug, PartialEq, Eq, Structural)]
pub enum Protocol {
    UDP,
    TCP,
}

/// Failures of a NAT-PMP exchange, local or reported by the gateway.
#[allow(non_camel_case_types)]
#[derive(Clone, Copy, Debug, PartialEq, Eq, Structural)]
pub enum Error {
    /// The socket could not be created or bound.
    NATPMP_ERR_SOCKETERROR,
    /// The socket could not connect to the gateway.
    NATPMP_ERR_CONNECTERR,
    /// No default gateway could be found.
    NATPMP_ERR_CANNOTGETGATEWAY,
    /// Every receive attempt failed.
    NATPMP_ERR_RECVFROM,
    /// The reply carries a version other than 0, or the gateway reports result 1.
    NATPMP_ERR_UNSUPPORTEDVERSION,
    /// The reply carries an unknown opcode, or the gateway reports result 5.
    NATPMP_ERR_UNSUPPORTEDOPCODE,
    /// The gateway reports a result code outside 1 to 5.
    NATPMP_ERR_UNDEFINEDERROR,
    /// The gateway reports result 2.
    NATPMP_ERR_NOTAUTHORIZED,
    /// A send failed or was partial, or the gateway reports result 3.
    NATPMP_ERR_NETWORKFAILURE,
    /// The gateway reports result 4.
    NATPMP_ERR_OUTOFRESOURCES,
}

/// Reply to a public-address request.
#[derive(Clone, Copy, Debug, PartialEq, Eq, Structural)]
pub struct GatewayResponse {
    /// Seconds since the gateway's NAT-PMP service started.
    pub epoch: u32,
    /// External IPv4 address, its four octets read as one big-endian number.
    pub public_address: u32,
}

/// Reply to a port-mapping request.
#[derive(Clone, Copy, Debug, PartialEq, Eq, Structural)]
pub struct MappingResponse {
    /// Seconds since the gateway's NAT-PMP service started.
    pub epoch: u32,
    pub private_port: u16,
    pub public_port: u16,
    /// Granted lifetime of the mapping, in seconds.
    pub lifetime: u32,
}

/// A decoded gateway reply.
#[derive(Clone, Copy, Debug, PartialEq, Eq, Structural)]
pub enum Response {
    Gateway(GatewayResponse),
    UDP(MappingResponse),
    TCP(MappingResponse),
}

/// The two bytes of `v`, most significant first.
pub open spec fn be16_bytes(v: u16) -> Seq<u8> {
    seq![(v / 256) as u8, (v % 256) as u8]
}

/// The four bytes of `v`, most significant first.
pub open spec fn be32_bytes(v: u32) -> Seq<u8> {
    seq![(v / 0x100_0000) as u8, (v / 0x1_0000 % 256) as u8, (v / 256 % 256) as u8, (v % 256) as u8]
}

/// The number held big-endian in `b[i]`, `b[i + 1]`.
pub open spec fn be16(b: Seq<u8>, i: int) -> u16 {
    (b[i] * 256 + b[i + 1]) as u16
}

/// The number held big-endian in `b[i]` to `b[i + 3]`.
pub open spec fn be32(b: Seq<u8>, i: int) -> u32 {
    (b[i] * 0x100_0000 + b[i + 1] * 0x1_0000 + b[i + 2] * 256 + b[i + 3]) as u32
}

/// Opcode of a mapping request for `protocol`.
pub open spec fn mapping_opcode(protocol: Protocol) -> u8 {
    match protocol {
        Protocol::UDP => 1,
        Protocol::TCP => 2,
    }
}

/// Wire form of a port-mapping request.
pub open spec fn mapping_request_bytes(
    protocol: Protocol,
    private_port: u16,
    public_port: u16,
    lifetime: u32,
) -> Seq<u8> {
    seq![0u8, mapping_opcode(protocol), 0u8, 0u8] + be16_bytes(private_port) + be16_bytes(
        public_port,
    ) + be32_bytes(lifetime)
}

/// The public-address request: version 0, opcode 0.
pub fn public_address_request() -> (r: [u8; 2])
    ensures
        r@ == seq![0u8, 0u8],
{
    let r: [u8; 2] = [0, 0];
    assert(r@ =~= seq![0u8, 0u8]);
    r
}

/// The port-mapping request for `protocol`, the two ports and the lifetime in seconds.
pub fn port_mapping_request(protocol: Protocol, private_port: u16, public_port: u16, lifetime: u32) -> (r: [u8; 12])
    ensures
        r@ == mapping_request_bytes(protocol, private_port, public_port, lifetime),
{
    let opcode: u8 = match protocol {
        Protocol::UDP => 1,
        Protocol::TCP => 2,
    };
    let r: [u8; 12] = [
        0,
        opcode,
        0,
        0,
        (private_port / 256) as u8,
        (private_port % 256) as u8,
        (public_port / 256) as u8,
        (public_port % 256) as u8,
        (lifetime / 0x100_0000) as u8,
        (lifetime / 0x1_0000 % 256) as u8,
        (lifetime / 256 % 256) as u8,
        (lifetime % 256) as u8,
    ];
    assert(r@ =~= mapping_request_bytes(protocol, private_port, public_port, lifetime));
    r
}

/// A mapping request holds a version of 0, the protocol's opcode and two
/// reserved zero bytes, and reading it back field by field gives the ports
/// and the lifetime that went in.
pub proof fn lemma_mapping_request_fields(
    protocol: Protocol,
    private_port: u16,
    public_port: u16,
    lifetime: u32,
)
    ensures
        ({
            let b = mapping_request_bytes(protocol, private_port, public_port, lifetime);
            &&& b.len() == 12
            &&& b[0] == 0
            &&& b[1] == mapping_opcode(protocol)
            &&& b[2] == 0 && b[3] == 0
            &&& be16(b, 4) == private_port
            &&& be16(b, 6) == public_port
            &&& be32(b, 8) == lifetime
        }),
{
    let b = mapping_request_bytes(protocol, private_port, public_port, lifetime);
    assert(b[4] == (private_port / 256) as u8 && b[5] == (private_port % 256) as u8);
    assert(b[6] == (public_port / 256) as u8 && b[7] == (public_port % 256) as u8);
    assert(b[8] == (lifetime / 0x100_0000) as u8);
    assert(b[9] == (lifetime / 0x1_0000 % 256) as u8);
    assert(b[10] == (lifetime / 256 % 256) as u8);
    assert(b[11] == (lifetime % 256) as u8);
}

} // verus!
