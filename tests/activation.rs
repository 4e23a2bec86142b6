use plasma::activation::{
    Action, Activation, ActivationError, Event, Phase, ProbeOutcome, POLL_INTERVAL_MS,
    START_TIMEOUT_MS,
};
use plasma::record::{render_record, DaemonRecord};
use plasma::shell::{
    deactivate_block, dialect_of, dialect_of_shell_path, shell_hook, unset_block, Dialect,
};

const DIGEST_OF_X: &str = "4b68ab3847feda7d6c62c1fbcbeebfa35eab7351ed5e78f4ddadea5df64b8015";

fn activation() -> Activation {
    Activation { state_root: "/state/daemons".to_string(), dialect: Dialect::Posix }
}

fn record(pid: u32, start: u64, http: &str) -> DaemonRecord {
    DaemonRecord {
        fingerprint: DIGEST_OF_X.to_string(),
        pid,
        process_start_time: start,
        http_endpoint: http.to_string(),
        grpc_endpoint: "http://127.0.0.1:9002".to_string(),
        unix_socket_path: "/tmp/plasma.sock".to_string(),
        created_at: 1700000000,
    }
}

fn record_file() -> String {
    format!("/state/daemons/{}.record", DIGEST_OF_X)
}

/// Runs from `/work/proj`, where `plasma.toml` holds `X`, up to the lookup
/// of the record; returns the phase waiting for the record.
fn run_to_lookup(act: &Activation) -> Phase {
    let (p, a) = act.start("/work/proj".to_string());
    assert!(matches!(&a, Action::ProbeConfig(path) if path == "/work/proj/plasma.toml"));
    let (p, a) = act.step(p, Event::Probed(ProbeOutcome::Present));
    assert!(matches!(&a, Action::ReadConfig(path) if path == "/work/proj/plasma.toml"));
    let (p, a) = act.step(p, Event::ConfigRead(Ok(b"X".to_vec())));
    assert!(matches!(&a, Action::LoadRecord(path) if *path == record_file()));
    p
}

fn expected_exports() -> String {
    [
        "export PLASMA_HTTP_URL=http://127.0.0.1:9001",
        "export PLASMA_GRPC_URL=http://127.0.0.1:9002",
        "export PLASMA_UNIX_SOCKET=/tmp/plasma.sock",
        &format!("export PLASMA_CONFIG_HASH={}", DIGEST_OF_X),
        "export PLASMA_DAEMON_PID=4242",
        "export GRADLE_BUILD_CACHE_URL=http://127.0.0.1:9001",
        "export NX_SELF_HOSTED_REMOTE_CACHE_SERVER=http://127.0.0.1:9001",
        "export XCODE_CACHE_SERVER=http://127.0.0.1:9002",
        "export TURBO_API=http://127.0.0.1:9001",
        "export TURBO_TEAM=plasma",
        "export TURBO_TOKEN=plasma",
        "",
    ]
    .join("\n")
}

/// From the phase after a spawn succeeded: the daemon's record appears at
/// the first look; returns the emitted text.
fn finish_after_spawn(act: &Activation, p: Phase) -> String {
    let (p, a) = act.step(p, Event::Spawned(Ok(())));
    assert!(matches!(&a, Action::LoadRecord(path) if *path == record_file()));
    // not there yet: wait one interval
    let (p, a) = act.step(p, Event::RecordLoaded(None));
    assert!(matches!(a, Action::Sleep(ms) if ms == POLL_INTERVAL_MS));
    let (p, a) = act.step(p, Event::Slept(200));
    assert!(matches!(&a, Action::LoadRecord(path) if *path == record_file()));
    let text = render_record(&record(4242, 777, "http://127.0.0.1:9001"));
    let (p, a) = act.step(p, Event::RecordLoaded(Some(text)));
    assert!(matches!(a, Action::ObserveProcess(4242)));
    let (p, a) = act.step(p, Event::ProcessObserved(Some(777)));
    assert!(matches!(p, Phase::Done));
    match a {
        Action::Emit(out) => out,
        other => panic!("unexpected action {:?}", other),
    }
}

#[test]
fn scenario_a_spawns_and_exports() {
    let act = activation();
    let p = run_to_lookup(&act);
    let (p, a) = act.step(p, Event::RecordLoaded(None));
    assert!(matches!(&a, Action::SpawnDaemon(path) if path == "/work/proj/plasma.toml"));
    let out = finish_after_spawn(&act, p);
    assert!(out.contains("export PLASMA_HTTP_URL=http://127.0.0.1:9001\n"));
    assert!(out.contains(&format!("export PLASMA_CONFIG_HASH={}\n", DIGEST_OF_X)));
    assert!(out.contains("export PLASMA_DAEMON_PID=4242\n"));
    assert_eq!(out, expected_exports());
}

#[test]
fn scenario_b_stale_record_is_removed_and_replaced() {
    let act = activation();
    for observed in [None, Some(12345u64)] {
        let p = run_to_lookup(&act);
        let stale = render_record(&record(99999, 55555, "http://127.0.0.1:1"));
        let (p, a) = act.step(p, Event::RecordLoaded(Some(stale)));
        assert!(matches!(a, Action::ObserveProcess(99999)));
        let (p, a) = act.step(p, Event::ProcessObserved(observed));
        assert!(matches!(&a, Action::RemoveRecord(path) if *path == record_file()));
        let (p, a) = act.step(p, Event::Removed);
        assert!(matches!(&a, Action::SpawnDaemon(path) if path == "/work/proj/plasma.toml"));
        let out = finish_after_spawn(&act, p);
        assert_eq!(out, expected_exports());
    }
}

#[test]
fn scenario_c_no_config_prints_only_unsets() {
    let act = activation();
    let (mut p, mut a) = act.start("/a/b".to_string());
    let mut probed = Vec::new();
    loop {
        match a {
            Action::ProbeConfig(path) => {
                probed.push(path);
                let step = act.step(p, Event::Probed(ProbeOutcome::Absent));
                p = step.0;
                a = step.1;
            }
            Action::Emit(out) => {
                assert_eq!(out, unset_block(Dialect::Posix));
                assert!(out.lines().all(|l| l.starts_with("unset ")));
                break;
            }
            other => panic!("unexpected action {:?}", other),
        }
    }
    assert_eq!(probed, vec!["/a/b/plasma.toml", "/a/plasma.toml", "/plasma.toml"]);
}

#[test]
fn closest_config_wins_and_unreadable_parents_are_skipped() {
    let act = activation();
    let (p, _) = act.start("/a/b".to_string());
    let (p, a) = act.step(p, Event::Probed(ProbeOutcome::Absent));
    assert!(matches!(&a, Action::ProbeConfig(path) if path == "/a/plasma.toml"));
    let (p, a) = act.step(p, Event::Probed(ProbeOutcome::Unreadable));
    assert!(matches!(&a, Action::ProbeConfig(path) if path == "/plasma.toml"));
    let (_, a) = act.step(p, Event::Probed(ProbeOutcome::Present));
    assert!(matches!(&a, Action::ReadConfig(path) if path == "/plasma.toml"));
}

#[test]
fn unreadable_start_directory_fails() {
    let act = activation();
    let (p, _) = act.start("/locked".to_string());
    let (p, a) = act.step(p, Event::Probed(ProbeOutcome::Unreadable));
    assert!(matches!(p, Phase::Done));
    match a {
        Action::Fail(out, ActivationError::ConfigDiscoveryIo { dir }) => {
            assert_eq!(out, unset_block(Dialect::Posix));
            assert_eq!(dir, "/locked");
        }
        other => panic!("unexpected action {:?}", other),
    }
}

#[test]
fn unreadable_config_fails() {
    let act = activation();
    let (p, _) = act.start("/w".to_string());
    let (p, _) = act.step(p, Event::Probed(ProbeOutcome::Present));
    let (_, a) = act.step(p, Event::ConfigRead(Err("Permission denied".to_string())));
    match a {
        Action::Fail(out, e) => {
            assert_eq!(out, unset_block(Dialect::Posix));
            assert_eq!(e.message(), "Failed to read config file /w/plasma.toml: Permission denied");
        }
        other => panic!("unexpected action {:?}", other),
    }
}

#[test]
fn spawn_failure_fails() {
    let act = activation();
    let p = run_to_lookup(&act);
    let (p, _) = act.step(p, Event::RecordLoaded(Some("garbage".to_string())));
    let (_, a) = act.step(p, Event::Spawned(Err("No such file or directory".to_string())));
    match a {
        Action::Fail(out, e) => {
            assert_eq!(out, unset_block(Dialect::Posix));
            assert!(matches!(e, ActivationError::DaemonSpawnFailure { .. }));
            assert_eq!(
                e.message(),
                "Failed to spawn daemon process for config /work/proj/plasma.toml: No such file or directory"
            );
        }
        other => panic!("unexpected action {:?}", other),
    }
}

#[test]
fn timeout_emits_unset_fallback() {
    let act = activation();
    let p = run_to_lookup(&act);
    let (p, _) = act.step(p, Event::RecordLoaded(None));
    let (mut p, _) = act.step(p, Event::Spawned(Ok(())));
    let mut elapsed = 0u64;
    loop {
        let (np, a) = act.step(p, Event::RecordLoaded(None));
        match a {
            Action::Sleep(ms) => {
                assert_eq!(ms, 100);
                elapsed += ms;
                let (np2, _) = act.step(np, Event::Slept(elapsed));
                p = np2;
            }
            Action::Fail(out, e) => {
                assert_eq!(out, unset_block(Dialect::Posix));
                assert!(!out.contains("export"));
                assert_eq!(elapsed, START_TIMEOUT_MS + 100);
                assert_eq!(e.message(), "Timeout waiting for daemon to start after 5100 ms");
                break;
            }
            other => panic!("unexpected action {:?}", other),
        }
    }
}

#[test]
fn live_daemon_activation_is_idempotent() {
    let act = activation();
    let mut outputs = Vec::new();
    for _ in 0..2 {
        let p = run_to_lookup(&act);
        let text = render_record(&record(4242, 777, "http://127.0.0.1:9001"));
        let (p, _) = act.step(p, Event::RecordLoaded(Some(text)));
        let (_, a) = act.step(p, Event::ProcessObserved(Some(777)));
        match a {
            Action::Emit(out) => outputs.push(out),
            other => panic!("unexpected action {:?}", other),
        }
    }
    assert_eq!(outputs[0], outputs[1]);
    assert_eq!(outputs[0], expected_exports());
}

#[test]
fn unexpected_event_fails() {
    let act = activation();
    let (p, _) = act.start("/w".to_string());
    let (_, a) = act.step(p, Event::Removed);
    assert!(matches!(a, Action::Fail(_, ActivationError::UnexpectedEvent)));
}

#[test]
fn fish_dialect_output() {
    assert_eq!(dialect_of("fish"), Dialect::Fish);
    assert_eq!(dialect_of("bash"), Dialect::Posix);
    assert_eq!(dialect_of_shell_path("/usr/local/bin/fish"), Dialect::Fish);
    assert_eq!(dialect_of_shell_path("/bin/zsh"), Dialect::Posix);
    let fish = unset_block(Dialect::Fish);
    assert_eq!(fish.lines().count(), 11);
    assert!(fish.starts_with("set -e PLASMA_HTTP_URL 2>/dev/null\n"));
    assert!(fish.ends_with("set -e TURBO_TOKEN 2>/dev/null\n"));
    let posix = unset_block(Dialect::Posix);
    assert!(posix.starts_with("unset PLASMA_HTTP_URL\nunset PLASMA_GRPC_URL\n"));
    assert!(posix.ends_with("unset TURBO_TEAM\nunset TURBO_TOKEN\n"));
    let rec = record(7, 1, "http://h");
    let out = rec.render_exports(Dialect::Fish);
    assert!(out.starts_with("set -gx PLASMA_HTTP_URL http://h\n"));
    assert!(out.contains("set -gx PLASMA_DAEMON_PID 7\n"));
}

#[test]
fn shell_hooks() {
    let bash = shell_hook("bash").unwrap();
    assert!(bash.contains("eval \"$(plasma activate --status 2>/dev/null)\""));
    assert!(bash.contains("PROMPT_COMMAND=\"_plasma_hook;${PROMPT_COMMAND}\""));
    let zsh = shell_hook("zsh").unwrap();
    assert!(zsh.contains("add-zsh-hook precmd _plasma_hook"));
    assert!(!zsh.contains("chpwd"));
    let fish = shell_hook("fish").unwrap();
    assert!(fish.starts_with("function _plasma_hook --on-variable PWD\n"));
    let err = shell_hook("tcsh").unwrap_err();
    assert_eq!(err.name, "tcsh");
    assert_eq!(err.message(), "Unsupported shell: tcsh. Use bash, zsh, or fish");
}

#[test]
fn record_for_another_fingerprint_is_absent() {
    let act = activation();
    let p = run_to_lookup(&act);
    let mut other = record(4242, 777, "http://127.0.0.1:9001");
    other.fingerprint = "0000".to_string();
    let (_, a) = act.step(p, Event::RecordLoaded(Some(render_record(&other))));
    assert!(matches!(&a, Action::SpawnDaemon(path) if path == "/work/proj/plasma.toml"));
}

#[test]
fn deactivation_leaves_turborepo_variables() {
    let posix = deactivate_block(Dialect::Posix);
    assert_eq!(
        posix,
        "unset PLASMA_HTTP_URL\nunset PLASMA_GRPC_URL\nunset PLASMA_UNIX_SOCKET\nunset PLASMA_CONFIG_HASH\nunset PLASMA_DAEMON_PID\nunset GRADLE_BUILD_CACHE_URL\nunset NX_SELF_HOSTED_REMOTE_CACHE_SERVER\nunset XCODE_CACHE_SERVER\n"
    );
    let fish = deactivate_block(Dialect::Fish);
    assert_eq!(fish.lines().count(), 8);
    assert!(fish.ends_with("set -e XCODE_CACHE_SERVER 2>/dev/null\n"));
    assert!(!fish.contains("TURBO"));
}
