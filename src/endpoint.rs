use crate::error::Error;
use vstd::prelude::*;
use vstd::string::StringExecFns;

verus! {

/// A URI, as the WebSocket transport takes it.
#[verifier::external_type_specification]
#[verifier::external_body]
pub struct ExUri(http::Uri);

/// Whether a WebSocket connection is plain or over TLS.
#[verifier::external_type_specification]
pub struct ExMode(ws_tool::protocol::Mode);

/// The WebSocket mode that the scheme of `u` names (`ws` when it names none), or
/// `None` for another scheme.
pub uninterp spec fn mode_of(u: http::Uri) -> Option<ws_tool::protocol::Mode>;

/// The host that `u` names, if any.
pub uninterp spec fn host_of(u: http::Uri) -> Option<Seq<char>>;

/// The port that `u` names, if any.
pub uninterp spec fn port_of(u: http::Uri) -> Option<u16>;

/// Relies on ws_tool::connector::get_scheme: the connection mode that the URI's
/// scheme names, or an error for a scheme other than `ws` and `wss`.
pub assume_specification[ ws_tool::connector::get_scheme ](uri: &http::Uri) -> (r: Result<
    ws_tool::protocol::Mode,
    ws_tool::errors::WsError,
>)
    ensures
        r is Ok <==> mode_of(*uri) is Some,
        r is Ok ==> r->Ok_0 == mode_of(*uri)->0,
;

/// Relies on ws_tool::connector::get_host: the URI's host, or an error when it
/// names none.
pub assume_specification[ ws_tool::connector::get_host ](uri: &http::Uri) -> (r: Result<
    &str,
    ws_tool::errors::WsError,
>)
    ensures
        r is Ok <==> host_of(*uri) is Some,
        r is Ok ==> r->Ok_0@ == host_of(*uri)->0,
;

/// Relies on http::Uri::port_u16: the port that the URI names, if any.
pub assume_specification[ http::Uri::port_u16 ](uri: &http::Uri) -> (r: Option<u16>)
    ensures
        r == port_of(*uri),
;

/// The port that a WebSocket connection in mode `mode` uses when none is named.
pub open spec fn mode_port(mode: ws_tool::protocol::Mode) -> u16 {
    match mode {
        ws_tool::protocol::Mode::WS => 80,
        ws_tool::protocol::Mode::WSS => 443,
    }
}

/// Relies on ws_tool::protocol::Mode::default_port: 80 for plain, 443 for TLS.
pub assume_specification[ ws_tool::protocol::Mode::default_port ](
    mode: &ws_tool::protocol::Mode,
) -> (r: u16)
    ensures
        r == mode_port(*mode),
;

/// The port to connect to: the one named, or the mode's default.
pub fn port_or_default(port: Option<u16>, mode: &ws_tool::protocol::Mode) -> (r: u16)
    ensures
        r == match port {
            Some(p) => p,
            None => mode_port(*mode),
        },
{
    match port {
        Some(p) => p,
        None => mode.default_port(),
    }
}

/// The host and port that the WebSocket URI `uri` leads to: the port it names, or
/// the mode's default. A scheme other than `ws` or `wss`, or a missing host, is a
/// WebSocket error.
pub fn socket_target(uri: &http::Uri) -> (r: Result<(String, u16), Error>)
    ensures
        r is Ok <==> (mode_of(*uri) is Some && host_of(*uri) is Some),
        r is Err ==> r->Err_0 is WebSocket,
        r is Ok ==> r->Ok_0.0@ == host_of(*uri)->0,
        r is Ok ==> r->Ok_0.1 == match port_of(*uri) {
            Some(p) => p,
            None => mode_port(mode_of(*uri)->0),
        },
{
    let mode = match ws_tool::connector::get_scheme(uri) {
        Ok(m) => m,
        Err(e) => {
            return Err(Error::WebSocket(e));
        },
    };
    let host = match ws_tool::connector::get_host(uri) {
        Ok(h) => h,
        Err(e) => {
            return Err(Error::WebSocket(e));
        },
    };
    let port = port_or_default(uri.port_u16(), &mode);
    Ok((String::from_str(host), port))
}

/// The first address that a host name resolved to; none is an invalid host name.
pub fn first_address<A>(addrs: Option<A>) -> (r: Result<A, Error>)
    ensures
        match addrs {
            Some(a) => r == Ok::<A, Error>(a),
            None => r == Err::<A, Error>(Error::InvalidHostname),
        },
{
    match addrs {
        Some(a) => Ok(a),
        None => Err(Error::InvalidHostname),
    }
}

} // verus!
