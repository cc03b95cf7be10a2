use bmod_install::install::{
    liveness, Action, Event, Installer, Liveness, Outcome, Phase, GRACE_PERIOD_SECS,
};
use bmod_install::Error;

fn started(plugin: &str) -> Installer {
    let (inst, first) = Installer::new(plugin);
    assert!(matches!(first, Action::ReadConfig));
    assert_eq!(inst.phase_now(), Phase::ReadingConfig);
    inst
}

fn config_with(secret: &str) -> String {
    format!("ws_enabled \"1\"\nrcon_password \"{}\"\nrcon_port \"9002\"\n", secret)
}

#[test]
fn deferred_path_when_host_not_running() {
    let mut inst = started("my_plugin");
    let a = inst.step(Event::ConfigRead(Ok(config_with("abc123"))));
    assert!(matches!(a, Action::Connect));
    let a = inst.step(Event::Probed(Liveness::NotRunning));
    assert!(matches!(a, Action::CopyArtifact));
    let a = inst.step(Event::Copied(Ok(())));
    match a {
        Action::Enqueue(line) => assert_eq!(line, "plugin load my_plugin ; writeconfig\n"),
        other => panic!("unexpected action {:?}", other),
    }
    let a = inst.step(Event::Enqueued(Ok(())));
    assert!(matches!(a, Action::Finish(Ok(Outcome::DeferredActivation))));
    assert_eq!(inst.phase_now(), Phase::Done);
}

#[test]
fn live_reload_with_correct_secret() {
    let mut inst = started("my_plugin");
    let a = inst.step(Event::ConfigRead(Ok(config_with("abc123"))));
    assert!(matches!(a, Action::Connect));
    let a = inst.step(Event::Probed(Liveness::Running));
    match a {
        Action::Authenticate(line) => assert_eq!(line, "rcon_password abc123"),
        other => panic!("unexpected action {:?}", other),
    }
    let a = inst.step(Event::Reply(Ok("authyes".to_string())));
    match a {
        Action::Send(line) => assert_eq!(line, "plugin unload my_plugin;"),
        other => panic!("unexpected action {:?}", other),
    }
    let a = inst.step(Event::Sent(Ok(())));
    match a {
        Action::Wait(secs) => {
            assert_eq!(secs, 1);
            assert_eq!(secs, GRACE_PERIOD_SECS);
        }
        other => panic!("unexpected action {:?}", other),
    }
    let a = inst.step(Event::Waited);
    assert!(matches!(a, Action::CopyArtifact));
    let a = inst.step(Event::Copied(Ok(())));
    match a {
        Action::Send(line) => assert_eq!(line, "plugin load my_plugin;"),
        other => panic!("unexpected action {:?}", other),
    }
    let a = inst.step(Event::Sent(Ok(())));
    assert!(matches!(a, Action::Finish(Ok(Outcome::LiveReloaded))));
    assert_eq!(inst.phase_now(), Phase::Done);
}

#[test]
fn secret_mismatch_is_fatal_before_copy() {
    let mut inst = started("my_plugin");
    inst.step(Event::ConfigRead(Ok(config_with("wrong"))));
    let a = inst.step(Event::Probed(Liveness::Running));
    assert!(matches!(a, Action::Authenticate(_)));
    let a = inst.step(Event::Reply(Ok("authno".to_string())));
    assert!(matches!(a, Action::Finish(Err(Error::Auth))));
    assert_eq!(inst.phase_now(), Phase::Done);
}

#[test]
fn reply_that_only_starts_with_authyes_is_refused() {
    let mut inst = started("p");
    inst.step(Event::ConfigRead(Ok(config_with("s"))));
    inst.step(Event::Probed(Liveness::Running));
    let a = inst.step(Event::Reply(Ok("authyes!".to_string())));
    assert!(matches!(a, Action::Finish(Err(Error::Auth))));
}

#[test]
fn lost_connection_during_auth_is_fatal() {
    let mut inst = started("p");
    inst.step(Event::ConfigRead(Ok(config_with("s"))));
    inst.step(Event::Probed(Liveness::Running));
    let lost = std::io::Error::new(std::io::ErrorKind::ConnectionReset, "reset");
    let a = inst.step(Event::Reply(Err(Error::Connection(lost))));
    assert!(matches!(a, Action::Finish(Err(Error::Connection(_)))));
}

#[test]
fn config_without_secret_authenticates_with_empty_secret() {
    let mut inst = started("my_plugin");
    let a = inst.step(Event::ConfigRead(Ok("ws_enabled \"1\"\n".to_string())));
    assert!(matches!(a, Action::Connect));
    let a = inst.step(Event::Probed(Liveness::Running));
    match a {
        Action::Authenticate(line) => assert_eq!(line, "rcon_password "),
        other => panic!("unexpected action {:?}", other),
    }
}

#[test]
fn unreadable_config_fails_before_probe() {
    let mut inst = started("my_plugin");
    let missing = std::io::Error::new(std::io::ErrorKind::NotFound, "no such file");
    let a = inst.step(Event::ConfigRead(Err(missing)));
    assert!(matches!(a, Action::Finish(Err(Error::Io(_)))));
    assert_eq!(inst.phase_now(), Phase::Done);
}

#[test]
fn transport_failure_is_fatal() {
    let mut inst = started("p");
    inst.step(Event::ConfigRead(Ok(String::new())));
    let a = inst.step(Event::Probed(Liveness::Failed(Error::InvalidHostname)));
    assert!(matches!(a, Action::Finish(Err(Error::InvalidHostname))));
}

#[test]
fn failed_copy_on_deferred_path_is_fatal() {
    let mut inst = started("p");
    inst.step(Event::ConfigRead(Ok(String::new())));
    inst.step(Event::Probed(Liveness::NotRunning));
    let denied = std::io::Error::new(std::io::ErrorKind::PermissionDenied, "denied");
    let a = inst.step(Event::Copied(Err(denied)));
    assert!(matches!(a, Action::Finish(Err(Error::Io(_)))));
}

#[test]
fn failed_unload_stops_before_copy() {
    let mut inst = started("p");
    inst.step(Event::ConfigRead(Ok(String::new())));
    inst.step(Event::Probed(Liveness::Running));
    inst.step(Event::Reply(Ok("authyes".to_string())));
    let a = inst.step(Event::Sent(Err(Error::Auth)));
    assert!(matches!(a, Action::Finish(Err(Error::Auth))));
    assert_eq!(inst.phase_now(), Phase::Done);
}

#[test]
fn failed_enqueue_is_fatal() {
    let mut inst = started("p");
    inst.step(Event::ConfigRead(Ok(String::new())));
    inst.step(Event::Probed(Liveness::NotRunning));
    inst.step(Event::Copied(Ok(())));
    let full = std::io::Error::new(std::io::ErrorKind::Other, "disk full");
    let a = inst.step(Event::Enqueued(Err(full)));
    assert!(matches!(a, Action::Finish(Err(Error::Io(_)))));
}

#[test]
fn queue_line_only_appends() {
    let mut inst = started("my_plugin");
    inst.step(Event::ConfigRead(Ok(String::new())));
    inst.step(Event::Probed(Liveness::NotRunning));
    let a = inst.step(Event::Copied(Ok(())));
    let before = "plugin load other ; writeconfig\n".to_string();
    let after = match a {
        Action::Enqueue(line) => format!("{}{}", before, line),
        other => panic!("unexpected action {:?}", other),
    };
    assert!(after.starts_with(&before));
    assert_eq!(
        after,
        "plugin load other ; writeconfig\nplugin load my_plugin ; writeconfig\n"
    );
}

fn label(a: &Action) -> &'static str {
    match a {
        Action::ReadConfig => "read",
        Action::Connect => "connect",
        Action::Authenticate(_) => "auth",
        Action::Send(line) if line.starts_with("plugin unload") => "unload",
        Action::Send(_) => "load",
        Action::Wait(_) => "wait",
        Action::CopyArtifact => "copy",
        Action::Enqueue(_) => "enqueue",
        Action::Finish(_) => "finish",
    }
}

fn run_path(running: bool) -> Vec<&'static str> {
    let (mut inst, mut a) = Installer::new("my_plugin");
    let mut seen = Vec::new();
    loop {
        seen.push(label(&a));
        let ev = match a {
            Action::ReadConfig => Event::ConfigRead(Ok(config_with("abc123"))),
            Action::Connect if running => Event::Probed(Liveness::Running),
            Action::Connect => Event::Probed(Liveness::NotRunning),
            Action::Authenticate(_) => Event::Reply(Ok("authyes".to_string())),
            Action::Send(_) => Event::Sent(Ok(())),
            Action::Wait(_) => Event::Waited,
            Action::CopyArtifact => Event::Copied(Ok(())),
            Action::Enqueue(_) => Event::Enqueued(Ok(())),
            Action::Finish(r) => {
                assert!(r.is_ok());
                return seen;
            }
        };
        a = inst.step(ev);
    }
}

#[test]
fn copy_happens_once_on_each_path() {
    for running in [true, false] {
        let seen = run_path(running);
        assert_eq!(seen.iter().filter(|s| **s == "copy").count(), 1);
    }
}

#[test]
fn live_path_order() {
    assert_eq!(
        run_path(true),
        vec!["read", "connect", "auth", "unload", "wait", "copy", "load", "finish"]
    );
    assert_eq!(run_path(false), vec!["read", "connect", "copy", "enqueue", "finish"]);
}

#[test]
fn probe_results_map_to_liveness() {
    assert!(matches!(liveness::<u8>(Ok(None)), Liveness::NotRunning));
    assert!(matches!(liveness(Ok(Some(5u8))), Liveness::Running));
    assert!(matches!(
        liveness::<u8>(Err(Error::InvalidHostname)),
        Liveness::Failed(Error::InvalidHostname)
    ));
}

fn offline_install_line(plugin: &str) -> String {
    let mut inst = started(plugin);
    inst.step(Event::ConfigRead(Ok(String::new())));
    inst.step(Event::Probed(Liveness::NotRunning));
    let line = match inst.step(Event::Copied(Ok(()))) {
        Action::Enqueue(line) => line,
        other => panic!("unexpected action {:?}", other),
    };
    let a = inst.step(Event::Enqueued(Ok(())));
    assert!(matches!(a, Action::Finish(Ok(Outcome::DeferredActivation))));
    line
}

#[test]
fn repeated_offline_installs_accumulate_lines() {
    let mut queue = "existing\n".to_string();
    for _ in 0..3 {
        queue.push_str(&offline_install_line("my_plugin"));
    }
    assert_eq!(
        queue,
        "existing\nplugin load my_plugin ; writeconfig\nplugin load my_plugin ; writeconfig\nplugin load my_plugin ; writeconfig\n"
    );
}
