use crate::config::secret_key;
use crate::error::Error;
use crate::text::same_text;
use vstd::prelude::*;
use vstd::string::StringExecFns;

verus! {

/// Where the host's remote console listens.
pub const RCON_URI: &'static str = "ws://localhost:9002";

/// The line that authenticates a remote-console session with `secret`.
pub open spec fn auth_line(secret: Seq<char>) -> Seq<char> {
    secret_key() + secret
}

/// The reply by which the remote console accepts a password.
pub open spec fn accepted_reply() -> Seq<char> {
    seq!['a', 'u', 't', 'h', 'y', 'e', 's']
}

/// The command that loads plugin `name` into the running host.
pub open spec fn load_line(name: Seq<char>) -> Seq<char> {
    "plugin load "@ + name + ";"@
}

/// The command that unloads plugin `name` from the running host.
pub open spec fn unload_line(name: Seq<char>) -> Seq<char> {
    "plugin unload "@ + name + ";"@
}

/// The line that the host runs at its next start to load and enable plugin `name`.
pub open spec fn activation_line(name: Seq<char>) -> Seq<char> {
    "plugin load "@ + name + " ; writeconfig\n"@
}

/// `rcon_password <secret>`: the first line of a session.
pub fn auth_command(secret: &str) -> (r: String)
    ensures
        r@ == auth_line(secret@),
{
    let mut r = String::from_str("rcon_password ");
    proof {
        reveal_strlit("rcon_password ");
    }
    r.append(secret);
    assert(r@ =~= auth_line(secret@));
    r
}

/// Whether `reply` accepts the password: it is exactly `authyes`.
pub fn is_accepted(reply: &str) -> (r: bool)
    ensures
        r == (reply@ == accepted_reply()),
{
    proof {
        reveal_strlit("authyes");
    }
    assert("authyes"@ =~= accepted_reply());
    same_text(reply, "authyes")
}

/// `plugin load <name>;`
pub fn load_command(name: &str) -> (r: String)
    ensures
        r@ == load_line(name@),
{
    let mut r = String::from_str("plugin load ");
    r.append(name);
    r.append(";");
    r
}

/// `plugin unload <name>;`
pub fn unload_command(name: &str) -> (r: String)
    ensures
        r@ == unload_line(name@),
{
    let mut r = String::from_str("plugin unload ");
    r.append(name);
    r.append(";");
    r
}

/// `plugin load <name> ; writeconfig` and a line feed: the line appended to the
/// deferred-activation queue.
pub fn activation_command(name: &str) -> (r: String)
    ensures
        r@ == activation_line(name@),
{
    let mut r = String::from_str("plugin load ");
    r.append(name);
    r.append(" ; writeconfig\n");
    r
}

/// Whether the I/O error `e` is of kind `ErrorKind::TimedOut`.
pub uninterp spec fn timed_out(e: std::io::Error) -> bool;

/// Relies on std::io::Error::kind: whether a failed connect ran out of time
/// (`ErrorKind::TimedOut`) rather than failing otherwise.
#[verifier::external_body]
fn is_timeout(e: &std::io::Error) -> (r: bool)
    ensures
        r == timed_out(*e),
{
    e.kind() == std::io::ErrorKind::TimedOut
}

/// What a bounded connect to the remote console tells about the host: an open
/// stream, `None` when the attempt timed out (the host is not running), or a
/// connection error that carries the cause.
pub fn classify_connect<S>(r: Result<S, std::io::Error>) -> (out: Result<Option<S>, Error>)
    ensures
        r is Ok ==> out == Ok::<Option<S>, Error>(Some(r->Ok_0)),
        r is Err && timed_out(r->Err_0) ==> out == Ok::<Option<S>, Error>(None),
        r is Err && !timed_out(r->Err_0) ==> out == Err::<Option<S>, Error>(
            Error::Connection(r->Err_0),
        ),
{
    match r {
        Ok(stream) => Ok(Some(stream)),
        Err(e) => {
            if is_timeout(&e) {
                Ok(None)
            } else {
                Err(Error::Connection(e))
            }
        },
    }
}

} // verus!
