use vstd::prelude::*;

verus! {

/// An I/O failure reported by the operating system.
#[verifier::external_type_specification]
#[verifier::external_body]
pub struct ExIoError(std::io::Error);

/// A failure of the WebSocket transport that carries the remote console.
#[verifier::external_type_specification]
#[verifier::external_body]
pub struct ExWsError(ws_tool::errors::WsError);

/// All the ways in which installing a plugin can fail.
#[derive(Debug)]
pub enum Error {
    /// File system I/O error: the host configuration, the artifact copy or the
    /// activation queue.
    Io(std::io::Error),
    /// The remote-console host name did not resolve to any address.
    InvalidHostname,
    /// The TCP connection to the remote console failed (other than by timing out).
    Connection(std::io::Error),
    /// The WebSocket layer of the remote console failed.
    WebSocket(ws_tool::errors::WsError),
    /// The remote console refused the password.
    Auth,
}

} // verus!
