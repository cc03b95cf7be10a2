use bmod_install::endpoint::{first_address, port_or_default, socket_target};
use bmod_install::Error;
use http::Uri;
use ws_tool::protocol::Mode;

#[test]
fn remote_console_target() {
    let (host, port) = socket_target(&Uri::from_static("ws://localhost:9002")).unwrap();
    assert_eq!(host, "localhost");
    assert_eq!(port, 9002);
}

#[test]
fn default_ports() {
    let (host, port) = socket_target(&Uri::from_static("ws://example.com")).unwrap();
    assert_eq!(host, "example.com");
    assert_eq!(port, 80);
    let (_, port) = socket_target(&Uri::from_static("wss://example.com/x")).unwrap();
    assert_eq!(port, 443);
    assert_eq!(port_or_default(None, &Mode::WS), 80);
    assert_eq!(port_or_default(Some(9002), &Mode::WSS), 9002);
}

#[test]
fn unknown_scheme_is_refused() {
    let r = socket_target(&Uri::from_static("http://example.com"));
    assert!(matches!(r, Err(Error::WebSocket(_))));
}

#[test]
fn no_host_is_refused() {
    let r = socket_target(&Uri::from_static("/only/a/path"));
    assert!(matches!(r, Err(Error::WebSocket(_))));
}

#[test]
fn no_address_is_invalid_hostname() {
    assert!(matches!(first_address::<u8>(None), Err(Error::InvalidHostname)));
    assert!(matches!(first_address(Some(3u8)), Ok(3)));
}

#[test]
fn named_port_wins_over_default() {
    let (host, port) = socket_target(&Uri::from_static("wss://example.org:8443/a")).unwrap();
    assert_eq!(host, "example.org");
    assert_eq!(port, 8443);
}
