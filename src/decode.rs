//! Decoding of gateway replies.
use vstd::prelude::*;
use crate::message::{be16, be16_bytes, be32, be32_bytes, Error, GatewayResponse, MappingResponse, Response};

verus! {

/// The error for a nonzero result code reported by the gateway.
pub open spec fn result_code_error(code: u16) -> Error {
    if code == 1 {
        Error::NATPMP_ERR_UNSUPPORTEDVERSION
    } else if code == 2 {
        Error::NATPMP_ERR_NOTAUTHORIZED
    } else if code == 3 {
        Error::NATPMP_ERR_NETWORKFAILURE
    } else if code == 4 {
        Error::NATPMP_ERR_OUTOFRESOURCES
    } else if code == 5 {
        Error::NATPMP_ERR_UNSUPPORTEDOPCODE
    } else {
        Error::NATPMP_ERR_UNDEFINEDERROR
    }
}

/// The mapping fields of a reply: epoch, ports and lifetime.
pub open spec fn mapping_fields(b: Seq<u8>) -> MappingResponse {
    MappingResponse {
        epoch: be32(b, 4),
        private_port: be16(b, 8),
        public_port: be16(b, 10),
        lifetime: be32(b, 12),
    }
}

/// What a 16-byte receive area holds as a reply: the version is checked
/// first, then the opcode, then the result code; only then are the fields read.
pub open spec fn decoded(b: Seq<u8>) -> Result<Response, Error> {
    if b[0] != 0 {
        Err(Error::NATPMP_ERR_UNSUPPORTEDVERSION)
    } else if b[1] < 128 || b[1] > 130 {
        Err(Error::NATPMP_ERR_UNSUPPORTEDOPCODE)
    } else if be16(b, 2) != 0 {
        Err(result_code_error(be16(b, 2)))
    } else if b[1] == 128 {
        Ok(Response::Gateway(GatewayResponse { epoch: be32(b, 4), public_address: be32(b, 8) }))
    } else if b[1] == 129 {
        Ok(Response::UDP(mapping_fields(b)))
    } else {
        Ok(Response::TCP(mapping_fields(b)))
    }
}

fn read_be16(buf: &[u8; 16], i: usize) -> (r: u16)
    requires
        i + 1 < 16,
    ensures
        r == be16(buf@, i as int),
{
    buf[i] as u16 * 256 + buf[i + 1] as u16
}

fn read_be32(buf: &[u8; 16], i: usize) -> (r: u32)
    requires
        i + 3 < 16,
    ensures
        r == be32(buf@, i as int),
{
    buf[i] as u32 * 0x100_0000 + buf[i + 1] as u32 * 0x1_0000 + buf[i + 2] as u32 * 256
        + buf[i + 3] as u32
}

fn result_code_to_error(code: u16) -> (e: Error)
    ensures
        e == result_code_error(code),
{
    match code {
        1 => Error::NATPMP_ERR_UNSUPPORTEDVERSION,
        2 => Error::NATPMP_ERR_NOTAUTHORIZED,
        3 => Error::NATPMP_ERR_NETWORKFAILURE,
        4 => Error::NATPMP_ERR_OUTOFRESOURCES,
        5 => Error::NATPMP_ERR_UNSUPPORTEDOPCODE,
        _ => Error::NATPMP_ERR_UNDEFINEDERROR,
    }
}

/// Decodes the receive area of a reply into a response or the error it reports.
pub fn decode_response(buf: &[u8; 16]) -> (r: Result<Response, Error>)
    ensures
        r == decoded(buf@),
{
    if buf[0] != 0 {
        return Err(Error::NATPMP_ERR_UNSUPPORTEDVERSION);
    }
    let opcode = buf[1];
    if opcode < 128 || opcode > 130 {
        return Err(Error::NATPMP_ERR_UNSUPPORTEDOPCODE);
    }
    let code = read_be16(buf, 2);
    if code != 0 {
        return Err(result_code_to_error(code));
    }
    let epoch = read_be32(buf, 4);
    let kind = opcode & 0x7f;
    assert(kind == opcode - 128) by (bit_vector)
        requires
            kind == opcode & 0x7f,
            128 <= opcode <= 130,
    ;
    if kind == 0 {
        Ok(Response::Gateway(GatewayResponse { epoch, public_address: read_be32(buf, 8) }))
    } else {
        let m = MappingResponse {
            epoch,
            private_port: read_be16(buf, 8),
            public_port: read_be16(buf, 10),
            lifetime: read_be32(buf, 12),
        };
        if kind == 1 {
            Ok(Response::UDP(m))
        } else {
            Ok(Response::TCP(m))
        }
    }
}

proof fn lemma_be16_at(b: Seq<u8>, i: int, v: u16)
    requires
        0 <= i && i + 2 <= b.len(),
        b.subrange(i, i + 2) == be16_bytes(v),
    ensures
        be16(b, i) == v,
{
    assert(b[i] == b.subrange(i, i + 2)[0] && b[i + 1] == b.subrange(i, i + 2)[1]);
}

proof fn lemma_be32_at(b: Seq<u8>, i: int, v: u32)
    requires
        0 <= i && i + 4 <= b.len(),
        b.subrange(i, i + 4) == be32_bytes(v),
    ensures
        be32(b, i) == v,
{
    let w = b.subrange(i, i + 4);
    assert(b[i] == w[0] && b[i + 1] == w[1] && b[i + 2] == w[2] && b[i + 3] == w[3]);
}

/// Header of a successful reply: version 0, `opcode`, result code 0.
pub open spec fn success_header(opcode: u8) -> Seq<u8> {
    seq![0u8, opcode, 0u8, 0u8]
}

/// A twelve-byte public-address reply with result 0 decodes to the epoch and
/// address it carries, whatever the four bytes after it in the receive area.
pub proof fn lemma_decode_gateway_reply(epoch: u32, public_address: u32, rest: Seq<u8>)
    requires
        rest.len() == 4,
    ensures
        decoded(success_header(128) + be32_bytes(epoch) + be32_bytes(public_address) + rest)
            == Ok::<Response, Error>(Response::Gateway(GatewayResponse { epoch, public_address })),
{
    let b = success_header(128) + be32_bytes(epoch) + be32_bytes(public_address) + rest;
    assert(b.subrange(4, 8) =~= be32_bytes(epoch));
    assert(b.subrange(8, 12) =~= be32_bytes(public_address));
    lemma_be32_at(b, 4, epoch);
    lemma_be32_at(b, 8, public_address);
    assert(b[0] == 0 && b[1] == 128 && b[2] == 0 && b[3] == 0);
}

/// A sixteen-byte mapping reply with result 0 decodes to the fields it
/// carries, as a UDP mapping under opcode 129 and a TCP mapping under 130.
pub proof fn lemma_decode_mapping_reply(
    opcode: u8,
    epoch: u32,
    private_port: u16,
    public_port: u16,
    lifetime: u32,
)
    requires
        opcode == 129 || opcode == 130,
    ensures
        ({
            let b = success_header(opcode) + be32_bytes(epoch) + be16_bytes(private_port)
                + be16_bytes(public_port) + be32_bytes(lifetime);
            let m = MappingResponse { epoch, private_port, public_port, lifetime };
            &&& opcode == 129 ==> decoded(b) == Ok::<Response, Error>(Response::UDP(m))
            &&& opcode == 130 ==> decoded(b) == Ok::<Response, Error>(Response::TCP(m))
        }),
{
    let b = success_header(opcode) + be32_bytes(epoch) + be16_bytes(private_port) + be16_bytes(
        public_port,
    ) + be32_bytes(lifetime);
    assert(b.subrange(4, 8) =~= be32_bytes(epoch));
    assert(b.subrange(8, 10) =~= be16_bytes(private_port));
    assert(b.subrange(10, 12) =~= be16_bytes(public_port));
    assert(b.subrange(12, 16) =~= be32_bytes(lifetime));
    lemma_be32_at(b, 4, epoch);
    lemma_be16_at(b, 8, private_port);
    lemma_be16_at(b, 10, public_port);
    lemma_be32_at(b, 12, lifetime);
    assert(b[0] == 0 && b[1] == opcode && b[2] == 0 && b[3] == 0);
}

/// A reply of version 0 with a valid opcode and a nonzero result code fails
/// with the error of that code: 1 to 5 each have their own, every other code
/// is an undefined error.
pub proof fn lemma_decode_result_code(b: Seq<u8>)
    requires
        b.len() == 16,
        b[0] == 0,
        128 <= b[1] <= 130,
        be16(b, 2) != 0,
    ensures
        decoded(b) == Err::<Response, Error>(result_code_error(be16(b, 2))),
        be16(b, 2) == 1 ==> decoded(b) == Err::<Response, Error>(Error::NATPMP_ERR_UNSUPPORTEDVERSION),
        be16(b, 2) == 2 ==> decoded(b) == Err::<Response, Error>(Error::NATPMP_ERR_NOTAUTHORIZED),
        be16(b, 2) == 3 ==> decoded(b) == Err::<Response, Error>(Error::NATPMP_ERR_NETWORKFAILURE),
        be16(b, 2) == 4 ==> decoded(b) == Err::<Response, Error>(Error::NATPMP_ERR_OUTOFRESOURCES),
        be16(b, 2) == 5 ==> decoded(b) == Err::<Response, Error>(Error::NATPMP_ERR_UNSUPPORTEDOPCODE),
        be16(b, 2) > 5 ==> decoded(b) == Err::<Response, Error>(Error::NATPMP_ERR_UNDEFINEDERROR),
{
}

/// A reply whose version is not 0 fails as an unsupported version, whatever
/// its opcode and result code.
pub proof fn lemma_decode_bad_version(b: Seq<u8>)
    requires
        b.len() == 16,
        b[0] != 0,
    ensures
        decoded(b) == Err::<Response, Error>(Error::NATPMP_ERR_UNSUPPORTEDVERSION),
{
}

/// A reply of version 0 whose opcode lies outside 128 to 130 fails as an
/// unsupported opcode, whatever its result code.
pub proof fn lemma_decode_bad_opcode(b: Seq<u8>)
    requires
        b.len() == 16,
        b[0] == 0,
        b[1] < 128 || b[1] > 130,
    ensures
        decoded(b) == Err::<Response, Error>(Error::NATPMP_ERR_UNSUPPORTEDOPCODE),
{
}

} // verus!
