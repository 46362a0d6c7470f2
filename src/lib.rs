//! Client side of NAT-PMP: request encoding, reply decoding and the bounded
//! receive-retry schedule, each with a machine-checked contract.

pub mod message;
pub mod decode;
pub mod retry;
pub mod transport;

pub use message::{
    Error, GatewayResponse, MappingResponse, Protocol, Response, NATPMP_MAX_ATTEMPS, NATPMP_PORT,
};

pub use message::{port_mapping_request, public_address_request};
pub use decode::decode_response;
pub use retry::{RecvEvent, RecvRetry, RecvStep};
pub use transport::{check_sent, AsyncUdpSocket};

