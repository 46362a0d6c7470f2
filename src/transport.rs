//! The datagram transport that a client talks to its gateway through.
use vstd::prelude::*;
use crate::message::Error;

verus! {

/// std's `io::Error`, carried opaque through the transport's results: the
/// library reads only whether an operation failed, never the error itself.
#[verifier::external_type_specification]
#[verifier::external_body]
pub struct ExIoError(std::io::Error);

/// A connected datagram socket with asynchronous operations, supplied by the
/// caller. Each operation hands back a future that the caller awaits.
pub trait AsyncUdpSocket {
    type Connecting<'a>: std::future::Future<Output = std::io::Result<()>> where Self: 'a;

    type Sending<'a>: std::future::Future<Output = std::io::Result<usize>> where Self: 'a;

    type Receiving<'a>: std::future::Future<Output = std::io::Result<usize>> where Self: 'a;

    /// Connects the socket to `addr`.
    fn connect<'a>(&'a self, addr: &'a str) -> Self::Connecting<'a>;

    /// Sends `buf` as one datagram; the future gives the number of bytes sent.
    fn send<'a>(&'a self, buf: &'a [u8]) -> Self::Sending<'a>;

    /// Receives one datagram into `buf`; the future gives its length.
    fn recv<'a>(&'a self, buf: &'a mut [u8]) -> Self::Receiving<'a>;
}

/// The outcome of sending a request of `expected` bytes: a failed send, or
/// one that wrote any other number of bytes, is a network failure.
pub fn check_sent(sent: &std::io::Result<usize>, expected: usize) -> (r: Result<(), Error>)
    ensures
        r == (if sent matches Ok(n) && n == expected {
            Ok::<(), Error>(())
        } else {
            Err(Error::NATPMP_ERR_NETWORKFAILURE)
        }),
{
    match sent {
        Ok(n) if *n == expected => Ok(()),
        _ => Err(Error::NATPMP_ERR_NETWORKFAILURE),
    }
}

} // verus!
