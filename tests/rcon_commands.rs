use bmod_install::rcon::{
    activation_command, auth_command, classify_connect, is_accepted, load_command,
    unload_command,
};
use bmod_install::Error;

#[test]
fn command_lines() {
    assert_eq!(auth_command("abc123"), "rcon_password abc123");
    assert_eq!(auth_command(""), "rcon_password ");
    assert_eq!(load_command("my_plugin"), "plugin load my_plugin;");
    assert_eq!(unload_command("my_plugin"), "plugin unload my_plugin;");
    assert_eq!(activation_command("my_plugin"), "plugin load my_plugin ; writeconfig\n");
}

#[test]
fn only_authyes_is_accepted() {
    assert!(is_accepted("authyes"));
    assert!(!is_accepted("authno"));
    assert!(!is_accepted("authyes "));
    assert!(!is_accepted("AUTHYES"));
    assert!(!is_accepted(""));
}

#[test]
fn timeout_means_not_running() {
    let e = std::io::Error::new(std::io::ErrorKind::TimedOut, "timed out");
    let r: Result<Option<u8>, Error> = classify_connect(Err(e));
    assert!(matches!(r, Ok(None)));
}

#[test]
fn refused_connect_is_an_error() {
    let e = std::io::Error::new(std::io::ErrorKind::ConnectionRefused, "refused");
    let r: Result<Option<u8>, Error> = classify_connect(Err(e));
    assert!(matches!(r, Err(Error::Connection(_))));
}

#[test]
fn open_stream_is_kept() {
    let r: Result<Option<u8>, Error> = classify_connect(Ok(7u8));
    assert!(matches!(r, Ok(Some(7))));
}
