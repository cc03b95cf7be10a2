use bmod_install::config::{parse_rcon_password, resolve_secret};
use bmod_install::Error;

#[test]
fn secret_between_quotes() {
    assert_eq!(parse_rcon_password("rcon_password \"abc123\"\n"), "abc123");
}

#[test]
fn absent_key_gives_empty_secret() {
    assert_eq!(parse_rcon_password("ws_enabled \"1\"\nrcon_port \"9002\"\n"), "");
    assert_eq!(parse_rcon_password(""), "");
}

#[test]
fn first_key_line_wins() {
    let text = "a \"1\"\nrcon_password \"first\"\nrcon_password \"second\"\n";
    assert_eq!(parse_rcon_password(text), "first");
}

#[test]
fn key_line_without_quotes_gives_empty_secret() {
    assert_eq!(parse_rcon_password("rcon_password abc\nrcon_password \"x\"\n"), "");
}

#[test]
fn unclosed_quote_runs_to_line_end() {
    assert_eq!(parse_rcon_password("rcon_password \"abc\nnext \"q\"\n"), "abc");
}

#[test]
fn crlf_line_endings() {
    assert_eq!(parse_rcon_password("x \"1\"\r\nrcon_password \"abc\r\n"), "abc");
}

#[test]
fn key_must_start_the_line() {
    assert_eq!(parse_rcon_password(" rcon_password \"abc\"\n"), "");
    assert_eq!(parse_rcon_password("rcon_passwordx \"abc\"\n"), "");
}

#[test]
fn last_line_without_newline() {
    assert_eq!(parse_rcon_password("a \"1\"\nrcon_password \"zz\""), "zz");
}

#[test]
fn resolve_readable_file() {
    let r = resolve_secret(Ok("rcon_password \"pw\"\n".to_string()));
    assert_eq!(r.unwrap(), "pw");
    let r = resolve_secret(Ok("nothing here\n".to_string()));
    assert_eq!(r.unwrap(), "");
}

#[test]
fn resolve_unreadable_file() {
    let e = std::io::Error::new(std::io::ErrorKind::NotFound, "missing");
    assert!(matches!(resolve_secret(Err(e)), Err(Error::Io(_))));
}
