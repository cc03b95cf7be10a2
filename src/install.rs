use crate::config::{resolve_secret, secret_of};
use crate::error::Error;
use crate::rcon::{
    activation_command, auth_command, auth_line, accepted_reply, activation_line, is_accepted,
    load_command, load_line, unload_command, unload_line,
};
use vstd::prelude::*;
use vstd::string::StringExecFns;

verus! {

/// Seconds that a connect to the remote console may take before the host is taken
/// to be not running.
pub const CONNECT_TIMEOUT_SECS: u64 = 1;

/// Seconds to wait after an unload, so that the host lets go of the old artifact.
pub const GRACE_PERIOD_SECS: u64 = 1;

/// How an install ended well.
#[derive(Clone, Copy, Debug, PartialEq, Eq, Structural)]
pub enum Outcome {
    /// The running host unloaded the old plugin and loaded the new one.
    LiveReloaded,
    /// The host was not running; it loads the plugin at its next start.
    DeferredActivation,
}

/// What probing the remote console found.
#[derive(Debug)]
pub enum Liveness {
    /// Nothing answered within the connect timeout.
    NotRunning,
    /// A session is open: the transport connected and the handshake passed.
    Running,
    /// Connecting failed otherwise.
    Failed(Error),
}

/// What a probe found, from its result: a stream with a passed handshake is a
/// running host, nothing within the connect timeout (`None`) a host that is not
/// running, and an error a failed probe.
pub fn liveness<S>(probe: Result<Option<S>, Error>) -> (r: Liveness)
    ensures
        match probe {
            Ok(Some(_)) => r == Liveness::Running,
            Ok(None) => r == Liveness::NotRunning,
            Err(e) => r == Liveness::Failed(e),
        },
{
    match probe {
        Ok(Some(_)) => Liveness::Running,
        Ok(None) => Liveness::NotRunning,
        Err(e) => Liveness::Failed(e),
    }
}

/// What the caller reports after carrying out an action.
#[derive(Debug)]
pub enum Event {
    /// The host configuration file was read, or could not be.
    ConfigRead(Result<String, std::io::Error>),
    /// The remote console was probed.
    Probed(Liveness),
    /// The first line that the remote console sent back after authentication.
    Reply(Result<String, Error>),
    /// A command line was sent.
    Sent(Result<(), Error>),
    /// The grace period is over.
    Waited,
    /// The artifact was copied into the plugin directory, or could not be.
    Copied(Result<(), std::io::Error>),
    /// The line was appended to the activation queue, or could not be.
    Enqueued(Result<(), std::io::Error>),
}

/// What the caller is to do next.
#[derive(Debug)]
pub enum Action {
    /// Read the host configuration file.
    ReadConfig,
    /// Connect to the remote console, bounded by `CONNECT_TIMEOUT_SECS`.
    Connect,
    /// Send this line on the session and read one line back.
    Authenticate(String),
    /// Send this line on the session; no reply is awaited.
    Send(String),
    /// Sleep for this many seconds.
    Wait(u64),
    /// Copy the built artifact into the host's plugin directory.
    CopyArtifact,
    /// Append this line to the activation queue file, creating it if absent.
    Enqueue(String),
    /// Stop: the install is over, with this result. The session, if any, is closed.
    Finish(Result<Outcome, Error>),
}

/// Where an install stands.
#[derive(Clone, Copy, Debug, PartialEq, Eq, Structural)]
pub enum Phase {
    /// Waiting for the host configuration.
    ReadingConfig,
    /// Waiting for the probe of the remote console.
    Connecting,
    /// Waiting for the reply to the password.
    Authenticating,
    /// Waiting for the unload command to go out.
    Unloading,
    /// Waiting out the grace period.
    Waiting,
    /// Waiting for the copy, on the live-reload path.
    CopyingLive,
    /// Waiting for the load command to go out.
    Loading,
    /// Waiting for the copy, on the deferred path.
    CopyingDeferred,
    /// Waiting for the activation line to be queued.
    Enqueuing,
    /// Finished; no more events are taken.
    Done,
}

/// An action, as far as the order of effects is concerned.
#[derive(Clone, Copy, Debug, PartialEq, Eq, Structural)]
pub enum Effect {
    /// The host configuration was read.
    ReadConfig,
    /// The remote console was probed.
    Connect,
    /// The password was sent.
    Authenticate,
    /// The unload command was sent.
    Unload,
    /// The grace period was waited out.
    Wait,
    /// The artifact was copied into the plugin directory.
    Copy,
    /// The load command was sent.
    Load,
    /// The activation line was appended to the queue.
    Enqueue,
    /// The install ended.
    Finish,
}

/// The effects of the live-reload path, in order.
pub open spec fn live_trail() -> Seq<Effect> {
    seq![
        Effect::ReadConfig,
        Effect::Connect,
        Effect::Authenticate,
        Effect::Unload,
        Effect::Wait,
        Effect::Copy,
        Effect::Load,
    ]
}

/// The effects of the deferred path, in order.
pub open spec fn deferred_trail() -> Seq<Effect> {
    seq![Effect::ReadConfig, Effect::Connect, Effect::Copy, Effect::Enqueue]
}

/// The effects asked for by the time an install is in phase `p` (other than `Done`).
pub open spec fn trail(p: Phase) -> Seq<Effect> {
    match p {
        Phase::ReadingConfig => live_trail().take(1),
        Phase::Connecting => live_trail().take(2),
        Phase::Authenticating => live_trail().take(3),
        Phase::Unloading => live_trail().take(4),
        Phase::Waiting => live_trail().take(5),
        Phase::CopyingLive => live_trail().take(6),
        Phase::Loading => live_trail(),
        Phase::CopyingDeferred => deferred_trail().take(3),
        Phase::Enqueuing => deferred_trail(),
        Phase::Done => Seq::empty(),
    }
}

/// Each phase's trail is the one before it with one more effect.
proof fn lemma_trail_steps()
    ensures
        trail(Phase::Connecting) == trail(Phase::ReadingConfig).push(Effect::Connect),
        trail(Phase::Authenticating) == trail(Phase::Connecting).push(Effect::Authenticate),
        trail(Phase::Unloading) == trail(Phase::Authenticating).push(Effect::Unload),
        trail(Phase::Waiting) == trail(Phase::Unloading).push(Effect::Wait),
        trail(Phase::CopyingLive) == trail(Phase::Waiting).push(Effect::Copy),
        trail(Phase::Loading) == trail(Phase::CopyingLive).push(Effect::Load),
        trail(Phase::CopyingDeferred) == trail(Phase::Connecting).push(Effect::Copy),
        trail(Phase::Enqueuing) == trail(Phase::CopyingDeferred).push(Effect::Enqueue),
{
    assert(trail(Phase::Connecting) =~= trail(Phase::ReadingConfig).push(Effect::Connect));
    assert(trail(Phase::Authenticating) =~= trail(Phase::Connecting).push(Effect::Authenticate));
    assert(trail(Phase::Unloading) =~= trail(Phase::Authenticating).push(Effect::Unload));
    assert(trail(Phase::Waiting) =~= trail(Phase::Unloading).push(Effect::Wait));
    assert(trail(Phase::CopyingLive) =~= trail(Phase::Waiting).push(Effect::Copy));
    assert(trail(Phase::Loading) =~= trail(Phase::CopyingLive).push(Effect::Load));
    assert(trail(Phase::CopyingDeferred) =~= trail(Phase::Connecting).push(Effect::Copy));
    assert(trail(Phase::Enqueuing) =~= trail(Phase::CopyingDeferred).push(Effect::Enqueue));
}

/// The path that phase `p` lies on: the live-reload trail, or the deferred one.
pub open spec fn path(p: Phase) -> Seq<Effect> {
    match p {
        Phase::CopyingDeferred | Phase::Enqueuing => deferred_trail(),
        _ => live_trail(),
    }
}

/// How far along its path phase `p` stands.
pub open spec fn depth(p: Phase) -> int {
    match p {
        Phase::ReadingConfig => 1,
        Phase::Connecting => 2,
        Phase::Authenticating => 3,
        Phase::Unloading => 4,
        Phase::Waiting => 5,
        Phase::CopyingLive => 6,
        Phase::Loading => 7,
        Phase::CopyingDeferred => 3,
        Phase::Enqueuing => 4,
        Phase::Done => 0,
    }
}

/// Where each effect stands on the two paths.
proof fn lemma_positions()
    ensures
        forall|i: int|
            0 <= i < 7 ==> {
                &&& (live_trail()[i] == Effect::Connect <==> i == 1)
                &&& (live_trail()[i] == Effect::Unload <==> i == 3)
                &&& (live_trail()[i] == Effect::Copy <==> i == 5)
                &&& (live_trail()[i] == Effect::Load <==> i == 6)
                &&& live_trail()[i] != Effect::Finish
                &&& live_trail()[i] != Effect::Enqueue
            },
        forall|i: int|
            0 <= i < 4 ==> {
                &&& (deferred_trail()[i] == Effect::Connect <==> i == 1)
                &&& (deferred_trail()[i] == Effect::Copy <==> i == 2)
                &&& (deferred_trail()[i] == Effect::Enqueue <==> i == 3)
                &&& deferred_trail()[i] != Effect::Unload
                &&& deferred_trail()[i] != Effect::Load
                &&& deferred_trail()[i] != Effect::Finish
            },
{
    assert forall|i: int| 0 <= i < 7 implies {
        &&& (live_trail()[i] == Effect::Connect <==> i == 1)
        &&& (live_trail()[i] == Effect::Unload <==> i == 3)
        &&& (live_trail()[i] == Effect::Copy <==> i == 5)
        &&& (live_trail()[i] == Effect::Load <==> i == 6)
        &&& live_trail()[i] != Effect::Finish
        &&& live_trail()[i] != Effect::Enqueue
    } by {
        assert(i == 0 || i == 1 || i == 2 || i == 3 || i == 4 || i == 5 || i == 6);
    }
    assert forall|i: int| 0 <= i < 4 implies {
        &&& (deferred_trail()[i] == Effect::Connect <==> i == 1)
        &&& (deferred_trail()[i] == Effect::Copy <==> i == 2)
        &&& (deferred_trail()[i] == Effect::Enqueue <==> i == 3)
        &&& deferred_trail()[i] != Effect::Unload
        &&& deferred_trail()[i] != Effect::Load
        &&& deferred_trail()[i] != Effect::Finish
    } by {
        assert(i == 0 || i == 1 || i == 2 || i == 3);
    }
}

/// The phase whose trail the log of `inst` follows.
pub open spec fn reached(inst: Installer) -> Phase {
    if inst.phase() == Phase::Done {
        inst.finished_in()
    } else {
        inst.phase()
    }
}

/// Each entry of a well-formed log is the entry of its path at the same place, or
/// the final `Finish`.
proof fn lemma_log_entries(inst: Installer)
    requires
        inst.wf(),
    ensures
        reached(inst) != Phase::Done,
        0 < depth(reached(inst)) <= path(reached(inst)).len(),
        inst.log().len() == depth(reached(inst)) || (inst.phase() == Phase::Done
            && inst.log().len() == depth(reached(inst)) + 1),
        forall|i: int|
            0 <= i < inst.log().len() ==> if i < depth(reached(inst)) {
                inst.log()[i] == path(reached(inst))[i]
            } else {
                inst.log()[i] == Effect::Finish
            },
{
    let p = reached(inst);
    assert(trail(p) =~= path(p).take(depth(p)));
}

/// The artifact is copied at most once in any install, and exactly once in one that
/// ended well, on whichever path.
pub proof fn lemma_copied_once(inst: Installer)
    requires
        inst.wf(),
    ensures
        forall|i: int, j: int|
            0 <= i < inst.log().len() && 0 <= j < inst.log().len() && inst.log()[i]
                == Effect::Copy && inst.log()[j] == Effect::Copy ==> i == j,
        inst.outcome() is Some ==> inst.log().contains(Effect::Copy),
{
    lemma_positions();
    lemma_log_entries(inst);
    match inst.outcome() {
        Some(Outcome::LiveReloaded) => {
            assert(inst.log()[5] == Effect::Copy);
        },
        Some(Outcome::DeferredActivation) => {
            assert(inst.log()[2] == Effect::Copy);
        },
        None => {},
    }
}

/// On the live-reload path the unload is asked for before the copy, and the copy
/// before the load; an install that reloaded live asked for all three.
pub proof fn lemma_live_order(inst: Installer)
    requires
        inst.wf(),
    ensures
        forall|i: int, j: int|
            0 <= i < inst.log().len() && 0 <= j < inst.log().len() && inst.log()[i]
                == Effect::Unload && inst.log()[j] == Effect::Copy ==> i < j,
        forall|j: int, k: int|
            0 <= j < inst.log().len() && 0 <= k < inst.log().len() && inst.log()[k]
                == Effect::Load ==> (inst.log()[j] == Effect::Copy ==> j < k) && exists|c: int|
                0 <= c < k && #[trigger] inst.log()[c] == Effect::Copy,
        inst.outcome() == Some(Outcome::LiveReloaded) ==> inst.log().contains(Effect::Unload)
            && inst.log().contains(Effect::Copy) && inst.log().contains(Effect::Load),
{
    lemma_positions();
    lemma_log_entries(inst);
    if path(reached(inst)) == live_trail() && depth(reached(inst)) == 7 {
        assert(inst.log()[5] == Effect::Copy);
        assert(inst.log()[3] == Effect::Unload);
        assert(inst.log()[6] == Effect::Load);
    }
}

/// The artifact is never copied before the probe of the remote console has come back.
pub proof fn lemma_copy_after_probe(inst: Installer)
    requires
        inst.wf(),
    ensures
        forall|j: int|
            0 <= j < inst.log().len() && inst.log()[j] == Effect::Copy ==> exists|c: int|
                0 <= c < j && #[trigger] inst.log()[c] == Effect::Connect,
{
    lemma_positions();
    lemma_log_entries(inst);
    assert forall|j: int|
        0 <= j < inst.log().len() && inst.log()[j] == Effect::Copy implies exists|c: int|
        0 <= c < j && #[trigger] inst.log()[c] == Effect::Connect by {
        assert(inst.log()[1] == Effect::Connect);
    }
}

/// A probe that timed out takes the install down the deferred path: the next action
/// is the copy, not a failure.
pub proof fn lemma_timeout_defers(pre: Installer, post: Installer, a: Action)
    requires
        pre.wf(),
        pre.phase() == Phase::Connecting,
        responds(pre, Event::Probed(Liveness::NotRunning), post, a),
    ensures
        post.phase() == Phase::CopyingDeferred,
        a == Action::CopyArtifact,
{
}

/// Once the transport is up, authentication succeeds exactly when the reply is
/// `authyes`; any other reply, or none, ends the install with an error before
/// anything is copied.
pub proof fn lemma_auth_decides(
    pre: Installer,
    reply: Result<String, Error>,
    post: Installer,
    a: Action,
)
    requires
        pre.wf(),
        post.wf(),
        pre.phase() == Phase::Authenticating,
        responds(pre, Event::Reply(reply), post, a),
    ensures
        post.phase() != Phase::Done <==> (reply is Ok && reply->Ok_0@ == accepted_reply()),
        reply is Ok && reply->Ok_0@ != accepted_reply() ==> a == Action::Finish(
            Err(Error::Auth),
        ),
        post.phase() == Phase::Done ==> {
            &&& a is Finish
            &&& a->Finish_0 is Err
            &&& post.outcome() is None
            &&& !post.log().contains(Effect::Copy)
        },
{
    if post.phase() == Phase::Done {
        lemma_positions();
        lemma_log_entries(pre);
        lemma_log_entries(post);
        assert(post.log()[2] == post.log().take(3)[2]);
        assert(post.finished_in() == Phase::Authenticating);
        match post.outcome() {
            Some(Outcome::LiveReloaded) => {},
            Some(Outcome::DeferredActivation) => {},
            None => {},
        }
        match reply {
            Ok(_) => {},
            Err(_) => {},
        }
        assert forall|i: int| 0 <= i < post.log().len() implies post.log()[i] != Effect::Copy by {
            assert(i < 3 ==> post.log()[i] == live_trail()[i]);
        }
    }
}

/// The activation queue after the effects `log` of an install of `plugin`, when it
/// held `q` before: each `Enqueue` appends the plugin's activation line.
pub open spec fn queue_after(q: Seq<char>, log: Seq<Effect>, plugin: Seq<char>) -> Seq<char>
    decreases log.len(),
{
    if log.len() == 0 {
        q
    } else if log.last() == Effect::Enqueue {
        queue_after(q, log.drop_last(), plugin) + activation_line(plugin)
    } else {
        queue_after(q, log.drop_last(), plugin)
    }
}

/// The activation queue only grows: what it held before an install is a prefix of
/// what it holds after any of its steps.
pub proof fn lemma_queue_append_only(q: Seq<char>, log: Seq<Effect>, plugin: Seq<char>)
    ensures
        q.is_prefix_of(queue_after(q, log, plugin)),
    decreases log.len(),
{
    if log.len() > 0 {
        lemma_queue_append_only(q, log.drop_last(), plugin);
    }
}

proof fn lemma_queue_without_enqueue(q: Seq<char>, log: Seq<Effect>, plugin: Seq<char>)
    requires
        forall|i: int| 0 <= i < log.len() ==> log[i] != Effect::Enqueue,
    ensures
        queue_after(q, log, plugin) == q,
    decreases log.len(),
{
    if log.len() > 0 {
        lemma_queue_without_enqueue(q, log.drop_last(), plugin);
    }
}

/// After any install the activation queue holds what it held before, or that and
/// one activation line of the plugin: the line was added exactly when the install
/// took the deferred path to its end, and the queue is untouched by a live reload.
pub proof fn lemma_queue_after_install(inst: Installer, q: Seq<char>)
    requires
        inst.wf(),
    ensures
        queue_after(q, inst.log(), inst.plugin()) == q || queue_after(q, inst.log(), inst.plugin())
            == q + activation_line(inst.plugin()),
        inst.outcome() == Some(Outcome::DeferredActivation) ==> queue_after(
            q,
            inst.log(),
            inst.plugin(),
        ) == q + activation_line(inst.plugin()),
        inst.outcome() == Some(Outcome::LiveReloaded) ==> queue_after(q, inst.log(), inst.plugin())
            == q,
{
    lemma_positions();
    lemma_log_entries(inst);
    let log = inst.log();
    let p = inst.plugin();
    if reached(inst) == Phase::Enqueuing {
        let head = log.take(3);
        assert forall|i: int| 0 <= i < head.len() implies head[i] != Effect::Enqueue by {
            assert(head[i] == log[i]);
        }
        lemma_queue_without_enqueue(q, head, p);
        let upto = log.take(4);
        assert(upto.drop_last() =~= head);
        assert(upto.last() == Effect::Enqueue);
        assert(queue_after(q, upto, p) == queue_after(q, head, p) + activation_line(p));
        if log.len() == 4 {
            assert(log =~= upto);
        } else {
            assert(log.drop_last() =~= upto);
            assert(log.last() == Effect::Finish);
            assert(queue_after(q, log, p) == queue_after(q, upto, p));
        }
    } else {
        assert forall|i: int| 0 <= i < log.len() implies log[i] != Effect::Enqueue by {
            if i < depth(reached(inst)) {
                assert(log[i] == path(reached(inst))[i]);
            }
        }
        lemma_queue_without_enqueue(q, log, p);
    }
}

/// `line` written `n` times in a row.
pub open spec fn repeated(line: Seq<char>, n: nat) -> Seq<char>
    decreases n,
{
    if n == 0 {
        Seq::empty()
    } else {
        repeated(line, (n - 1) as nat) + line
    }
}

/// The activation queue after the installs `runs`, one after another, when it held
/// `q` before the first.
pub open spec fn queue_after_runs(q: Seq<char>, runs: Seq<Installer>) -> Seq<char>
    decreases runs.len(),
{
    if runs.len() == 0 {
        q
    } else {
        queue_after(
            queue_after_runs(q, runs.drop_last()),
            runs.last().log(),
            runs.last().plugin(),
        )
    }
}

/// Successive installs of one plugin that each took the deferred path to its end
/// leave the queue as it was, followed by one activation line per install: earlier
/// content is kept, and repeated lines are not merged.
pub proof fn lemma_queue_after_runs(q: Seq<char>, runs: Seq<Installer>, plugin: Seq<char>)
    requires
        forall|i: int|
            0 <= i < runs.len() ==> #[trigger] runs[i].wf() && runs[i].plugin() == plugin
                && runs[i].outcome() == Some(Outcome::DeferredActivation),
    ensures
        queue_after_runs(q, runs) == q + repeated(activation_line(plugin), runs.len()),
    decreases runs.len(),
{
    if runs.len() > 0 {
        let before = runs.drop_last();
        assert forall|i: int| 0 <= i < before.len() implies #[trigger] before[i].wf()
            && before[i].plugin() == plugin && before[i].outcome() == Some(
            Outcome::DeferredActivation,
        ) by {
            assert(before[i] == runs[i]);
        }
        lemma_queue_after_runs(q, before, plugin);
        let last = runs[runs.len() - 1];
        assert(runs.last() == last);
        assert(last.wf());
        lemma_queue_after_install(last, queue_after_runs(q, before));
        let line = activation_line(plugin);
        assert(q + repeated(line, before.len()) + line =~= q + repeated(line, runs.len()));
    }
}

/// Which events an install in phase `p` takes.
pub open spec fn expects(p: Phase, ev: Event) -> bool {
    match p {
        Phase::ReadingConfig => ev is ConfigRead,
        Phase::Connecting => ev is Probed,
        Phase::Authenticating => ev is Reply,
        Phase::Unloading | Phase::Loading => ev is Sent,
        Phase::Waiting => ev is Waited,
        Phase::CopyingLive | Phase::CopyingDeferred => ev is Copied,
        Phase::Enqueuing => ev is Enqueued,
        Phase::Done => false,
    }
}

/// How an install in state `pre` answers event `ev`: the state `post` it moves to
/// and the action `a` it asks for.
pub open spec fn responds(pre: Installer, ev: Event, post: Installer, a: Action) -> bool {
    &&& post.plugin() == pre.plugin()
    &&& post.log().len() == pre.log().len() + 1
    &&& post.log().take(pre.log().len() as int) == pre.log()
    &&& a is Finish ==> post.outcome() == match a->Finish_0 {
        Ok(o) => Some(o),
        Err(_) => None::<Outcome>,
    }
    &&& !(a is Finish) ==> post.outcome() is None
    &&& match ev {
        Event::ConfigRead(Ok(text)) => {
            &&& post.phase() == Phase::Connecting
            &&& post.secret() == secret_of(text@)
            &&& a == Action::Connect
        },
        Event::ConfigRead(Err(e)) => post.phase() == Phase::Done && a == Action::Finish(
            Err(Error::Io(e)),
        ),
        Event::Probed(Liveness::Running) => {
            &&& post.phase() == Phase::Authenticating
            &&& a is Authenticate
            &&& a->Authenticate_0@ == auth_line(pre.secret())
        },
        Event::Probed(Liveness::NotRunning) => post.phase() == Phase::CopyingDeferred && a
            == Action::CopyArtifact,
        Event::Probed(Liveness::Failed(e)) => post.phase() == Phase::Done && a == Action::Finish(
            Err(e),
        ),
        Event::Reply(Ok(reply)) => if reply@ == accepted_reply() {
            &&& post.phase() == Phase::Unloading
            &&& a is Send
            &&& a->Send_0@ == unload_line(pre.plugin())
        } else {
            post.phase() == Phase::Done && a == Action::Finish(Err(Error::Auth))
        },
        Event::Reply(Err(e)) => post.phase() == Phase::Done && a == Action::Finish(Err(e)),
        Event::Sent(Ok(_)) => if pre.phase() == Phase::Unloading {
            post.phase() == Phase::Waiting && a == Action::Wait(GRACE_PERIOD_SECS)
        } else {
            post.phase() == Phase::Done && a == Action::Finish(Ok(Outcome::LiveReloaded))
        },
        Event::Sent(Err(e)) => post.phase() == Phase::Done && a == Action::Finish(Err(e)),
        Event::Waited => post.phase() == Phase::CopyingLive && a == Action::CopyArtifact,
        Event::Copied(Ok(_)) => if pre.phase() == Phase::CopyingLive {
            &&& post.phase() == Phase::Loading
            &&& a is Send
            &&& a->Send_0@ == load_line(pre.plugin())
        } else {
            &&& post.phase() == Phase::Enqueuing
            &&& a is Enqueue
            &&& a->Enqueue_0@ == activation_line(pre.plugin())
        },
        Event::Copied(Err(e)) => post.phase() == Phase::Done && a == Action::Finish(
            Err(Error::Io(e)),
        ),
        Event::Enqueued(Ok(_)) => post.phase() == Phase::Done && a == Action::Finish(
            Ok(Outcome::DeferredActivation),
        ),
        Event::Enqueued(Err(e)) => post.phase() == Phase::Done && a == Action::Finish(
            Err(Error::Io(e)),
        ),
    }
}

/// One install transaction of one plugin: the decisions, apart from the I/O that
/// carries them out. The caller performs each action and reports its result.
pub struct Installer {
    plugin: String,
    secret: String,
    phase: Phase,
    log: Ghost<Seq<Effect>>,
    last: Ghost<Phase>,
    outcome: Ghost<Option<Outcome>>,
}

impl Installer {
    /// The name of the plugin being installed.
    pub closed spec fn plugin(&self) -> Seq<char> {
        self.plugin@
    }

    /// The secret read from the host configuration (empty until it was read).
    pub closed spec fn secret(&self) -> Seq<char> {
        self.secret@
    }

    /// Where the install stands.
    pub closed spec fn phase(&self) -> Phase {
        self.phase
    }

    /// The effects asked for so far, in order.
    pub closed spec fn log(&self) -> Seq<Effect> {
        self.log@
    }

    /// The phase in which the install finished (once it has).
    pub closed spec fn finished_in(&self) -> Phase {
        self.last@
    }

    /// How the install ended, when it ended well.
    pub closed spec fn outcome(&self) -> Option<Outcome> {
        self.outcome@
    }

    /// The effects asked for agree with the phase; a finished install asked for
    /// `Finish` last, and ended well exactly when it finished at the end of a path.
    pub open spec fn wf(&self) -> bool {
        if self.phase() != Phase::Done {
            &&& self.log() == trail(self.phase())
            &&& self.outcome() is None
        } else {
            &&& self.finished_in() != Phase::Done
            &&& self.log() == trail(self.finished_in()).push(Effect::Finish)
            &&& self.outcome() == Some(Outcome::LiveReloaded) ==> self.finished_in()
                == Phase::Loading
            &&& self.outcome() == Some(Outcome::DeferredActivation) ==> self.finished_in()
                == Phase::Enqueuing
        }
    }

    /// The phase.
    pub fn phase_now(&self) -> (r: Phase)
        ensures
            r == self.phase(),
    {
        self.phase
    }

    /// Starts installing `plugin`: the first action is to read the host configuration.
    pub fn new(plugin: &str) -> (r: (Installer, Action))
        ensures
            r.0.wf(),
            r.0.plugin() == plugin@,
            r.0.phase() == Phase::ReadingConfig,
            r.1 == Action::ReadConfig,
    {
        let ghost first = seq![Effect::ReadConfig];
        let inst = Installer {
            plugin: String::from_str(plugin),
            secret: String::new(),
            phase: Phase::ReadingConfig,
            log: Ghost(first),
            last: Ghost(Phase::Done),
            outcome: Ghost(None),
        };
        assert(inst.log@ =~= trail(Phase::ReadingConfig));
        (inst, Action::ReadConfig)
    }

    /// Takes the result of the last action and decides the next one.
    pub fn step(&mut self, ev: Event) -> (a: Action)
        requires
            old(self).wf(),
            expects(old(self).phase(), ev),
        ensures
            final(self).wf(),
            responds(*old(self), ev, *final(self), a),
    {
        let ghost pre = *self;
        proof {
            lemma_trail_steps();
        }
        let a = match ev {
            Event::ConfigRead(read) => match resolve_secret(read) {
                Ok(secret) => {
                    self.secret = secret;
                    self.advance(Phase::Connecting, Effect::Connect);
                    Action::Connect
                },
                Err(e) => self.finish(Err(e)),
            },
            Event::Probed(Liveness::Running) => {
                self.advance(Phase::Authenticating, Effect::Authenticate);
                Action::Authenticate(auth_command(self.secret.as_str()))
            },
            Event::Probed(Liveness::NotRunning) => {
                self.advance(Phase::CopyingDeferred, Effect::Copy);
                Action::CopyArtifact
            },
            Event::Probed(Liveness::Failed(e)) => self.finish(Err(e)),
            Event::Reply(Ok(reply)) => {
                if is_accepted(reply.as_str()) {
                    self.advance(Phase::Unloading, Effect::Unload);
                    Action::Send(unload_command(self.plugin.as_str()))
                } else {
                    self.finish(Err(Error::Auth))
                }
            },
            Event::Reply(Err(e)) => self.finish(Err(e)),
            Event::Sent(Ok(_)) => {
                if self.phase == Phase::Unloading {
                    self.advance(Phase::Waiting, Effect::Wait);
                    Action::Wait(GRACE_PERIOD_SECS)
                } else {
                    self.finish(Ok(Outcome::LiveReloaded))
                }
            },
            Event::Sent(Err(e)) => self.finish(Err(e)),
            Event::Waited => {
                self.advance(Phase::CopyingLive, Effect::Copy);
                Action::CopyArtifact
            },
            Event::Copied(Ok(_)) => {
                if self.phase == Phase::CopyingLive {
                    self.advance(Phase::Loading, Effect::Load);
                    Action::Send(load_command(self.plugin.as_str()))
                } else {
                    self.advance(Phase::Enqueuing, Effect::Enqueue);
                    Action::Enqueue(activation_command(self.plugin.as_str()))
                }
            },
            Event::Copied(Err(e)) => self.finish(Err(Error::Io(e))),
            Event::Enqueued(Ok(_)) => self.finish(Ok(Outcome::DeferredActivation)),
            Event::Enqueued(Err(e)) => self.finish(Err(Error::Io(e))),
        };
        proof {
            assert(self.log().take(pre.log().len() as int) =~= pre.log());
        }
        a
    }

    /// Ends the install with `result`, after the action of phase `self.phase`.
    fn finish(&mut self, result: Result<Outcome, Error>) -> (a: Action)
        requires
            old(self).wf(),
            old(self).phase() != Phase::Done,
            result == Ok::<Outcome, Error>(Outcome::LiveReloaded) ==> old(self).phase()
                == Phase::Loading,
            result == Ok::<Outcome, Error>(Outcome::DeferredActivation) ==> old(self).phase()
                == Phase::Enqueuing,
        ensures
            final(self).wf(),
            final(self).phase() == Phase::Done,
            final(self).finished_in() == old(self).phase(),
            final(self).plugin() == old(self).plugin(),
            final(self).secret() == old(self).secret(),
            final(self).log() == old(self).log().push(Effect::Finish),
            final(self).outcome() == (match result {
                Ok(o) => Some(o),
                Err(_) => None::<Outcome>,
            }),
            a == Action::Finish(result),
    {
        self.last = Ghost(self.phase);
        self.phase = Phase::Done;
        self.log = Ghost(self.log@.push(Effect::Finish));
        self.outcome = Ghost(
            match result {
                Ok(o) => Some(o),
                Err(_) => None,
            },
        );
        Action::Finish(result)
    }

    /// Moves to phase `p` and asks for effect `e`, which must be the next on the trail.
    fn advance(&mut self, p: Phase, e: Effect)
        requires
            old(self).wf(),
            old(self).phase() != Phase::Done,
            p != Phase::Done,
            trail(p) == trail(old(self).phase()).push(e),
        ensures
            final(self).wf(),
            final(self).phase() == p,
            final(self).plugin() == old(self).plugin(),
            final(self).secret() == old(self).secret(),
            final(self).log() == old(self).log().push(e),
            final(self).outcome() == old(self).outcome(),
    {
        self.phase = p;
        self.log = Ghost(self.log@.push(e));
    }
}

} // verus!
