//! The activation state machine. Each run starts in the current directory,
//! walks up to the nearest configuration file, fingerprints it, reuses the
//! live daemon recorded for that fingerprint or starts one and waits for it,
//! and ends by emitting shell text. The caller performs each action (probing
//! the filesystem, reading files, inspecting processes, spawning, sleeping)
//! and hands back what happened as an event.
use vstd::prelude::*;
use crate::decimal::{dec_spec, to_decimal};
use crate::fingerprint::{fingerprint, fingerprint_spec};
use crate::paths::{join, join_spec, lemma_parent_shorter, parent_dir, parent_spec};
use crate::record::{
    exports_spec, lemma_record_text_injective, parse_record, record_path, record_path_spec, record_text, DaemonRecord,
    RecordModel,
};
use crate::shell::{unset_block, unset_block_spec, Dialect};
use crate::text::same_text;

verus! {

/// Milliseconds between two looks for the new daemon's record.
pub const POLL_INTERVAL_MS: u64 = 100;

/// Milliseconds after a spawn beyond which waiting for the daemon fails.
pub const START_TIMEOUT_MS: u64 = 5000;

/// The configuration file looked for in each directory.
pub open spec fn config_file_name() -> Seq<char> {
    "plasma.toml"@
}

/// The configuration file that would stand in directory `dir`.
pub open spec fn config_candidate(dir: Seq<char>) -> Seq<char> {
    join_spec(dir, config_file_name())
}

/// Why an activation failed.
#[derive(Debug)]
pub enum ActivationError {
    /// The starting directory could not be read.
    ConfigDiscoveryIo { dir: String },
    /// The configuration file was found but could not be read.
    FingerprintIo { path: String, cause: String },
    /// The daemon process could not be launched.
    DaemonSpawnFailure { config: String, cause: String },
    /// No live record appeared in time after the spawn.
    DaemonStartTimeout { elapsed_ms: u64 },
    /// An event arrived that the current phase does not wait for.
    UnexpectedEvent,
}

impl ActivationError {
    /// The diagnostic for the caller's standard error.
    pub fn message(&self) -> (r: String)
        ensures
            self matches ActivationError::ConfigDiscoveryIo { dir } ==> r@
                == "Failed to read directory "@ + dir@,
            self matches ActivationError::FingerprintIo { path, cause } ==> r@
                == "Failed to read config file "@ + path@ + ": "@ + cause@,
            self matches ActivationError::DaemonSpawnFailure { config, cause } ==> r@
                == "Failed to spawn daemon process for config "@ + config@ + ": "@ + cause@,
            self matches ActivationError::DaemonStartTimeout { elapsed_ms } ==> r@
                == "Timeout waiting for daemon to start after "@ + dec_spec(elapsed_ms as nat)
                + " ms"@,
            self is UnexpectedEvent ==> r@ == "Unexpected event during activation"@,
    {
        match self {
            ActivationError::ConfigDiscoveryIo { dir } => {
                let mut r = String::from_str("Failed to read directory ");
                r.append(dir.as_str());
                r
            },
            ActivationError::FingerprintIo { path, cause } => {
                let mut r = String::from_str("Failed to read config file ");
                r.append(path.as_str());
                r.append(": ");
                r.append(cause.as_str());
                r
            },
            ActivationError::DaemonSpawnFailure { config, cause } => {
                let mut r = String::from_str("Failed to spawn daemon process for config ");
                r.append(config.as_str());
                r.append(": ");
                r.append(cause.as_str());
                r
            },
            ActivationError::DaemonStartTimeout { elapsed_ms } => {
                let mut r = String::from_str("Timeout waiting for daemon to start after ");
                let n = to_decimal(*elapsed_ms);
                r.append(n.as_str());
                r.append(" ms");
                r
            },
            ActivationError::UnexpectedEvent => String::from_str(
                "Unexpected event during activation",
            ),
        }
    }
}

/// What a look for the configuration file in one directory found.
#[derive(PartialEq, Eq, Structural, Clone, Copy, Debug)]
pub enum ProbeOutcome {
    Present,
    Absent,
    /// The directory could not be read.
    Unreadable,
}

/// What the caller reports after performing an action.
#[derive(Debug)]
pub enum Event {
    /// After `ProbeConfig`.
    Probed(ProbeOutcome),
    /// After `ReadConfig`: the file's bytes, or why it could not be read.
    ConfigRead(Result<Vec<u8>, String>),
    /// After `LoadRecord`: the record file's text, or none if it is missing
    /// or unreadable.
    RecordLoaded(Option<String>),
    /// After `ObserveProcess`: the start time of the process holding the
    /// pid, or none if no process holds it.
    ProcessObserved(Option<u64>),
    /// After `RemoveRecord`, whether or not the file was still there.
    Removed,
    /// After `SpawnDaemon`: whether the process was launched, or why not.
    Spawned(Result<(), String>),
    /// After `Sleep`: milliseconds elapsed since the spawn.
    Slept(u64),
}

/// What the caller is asked to do next.
#[derive(Debug)]
pub enum Action {
    /// Report whether this configuration file exists.
    ProbeConfig(String),
    /// Read this configuration file.
    ReadConfig(String),
    /// Read this record file.
    LoadRecord(String),
    /// Report the start time of the process holding this pid.
    ObserveProcess(u32),
    /// Delete this record file, ignoring a file already gone.
    RemoveRecord(String),
    /// Launch the daemon, detached, for this configuration file.
    SpawnDaemon(String),
    /// Sleep this many milliseconds.
    Sleep(u64),
    /// Print this text and end successfully.
    Emit(String),
    /// Print this text, report the error and end unsuccessfully.
    Fail(String, ActivationError),
}

/// Where a run stands: each phase waits for the result of the action that
/// led into it.
#[derive(Debug)]
pub enum Phase {
    Discover { dir: String, first: bool },
    ReadConfig { config: String },
    Lookup { config: String, fingerprint: String },
    CheckLive { config: String, fingerprint: String, record: DaemonRecord },
    Remove { config: String, fingerprint: String },
    Spawn { config: String, fingerprint: String },
    Poll { config: String, fingerprint: String, elapsed_ms: u64 },
    PollCheck { config: String, fingerprint: String, elapsed_ms: u64, record: DaemonRecord },
    Wait { config: String, fingerprint: String },
    Done,
}

/// The fixed parameters of a run.
pub struct Activation {
    /// The directory that holds the registry records.
    pub state_root: String,
    /// The dialect of the calling shell.
    pub dialect: Dialect,
}

/// Whether `text` is the text of a well-formed record for `fingerprint`.
/// A record that names another fingerprint counts as absent.
pub open spec fn is_record_for(text: Seq<char>, fingerprint: Seq<char>) -> bool {
    exists|m: RecordModel| m.wf() && record_text(m) == text && m.fingerprint == fingerprint
}

/// A failure: the unset block, so no stale binding survives, and `err`.
pub open spec fn fails_with(cfg: Activation, np: Phase, a: Action, err: spec_fn(ActivationError) -> bool) -> bool {
    &&& np is Done
    &&& a matches Action::Fail(out, e) && out@ == unset_block_spec(cfg.dialect) && err(e)
}

/// Asked to look for the record of `fingerprint`, in phase `np`.
pub open spec fn loads_record(cfg: Activation, a: Action, fingerprint: Seq<char>) -> bool {
    a matches Action::LoadRecord(path) && path@ == record_path_spec(cfg.state_root@, fingerprint)
}

/// After a look for the record while waiting for a new daemon found none
/// live: time out past the bound, else sleep one interval.
pub open spec fn wait_or_time_out(
    cfg: Activation,
    config: Seq<char>,
    fingerprint: Seq<char>,
    elapsed_ms: u64,
    np: Phase,
    a: Action,
) -> bool {
    if elapsed_ms > START_TIMEOUT_MS {
        fails_with(
            cfg,
            np,
            a,
            |e: ActivationError| e matches ActivationError::DaemonStartTimeout { elapsed_ms: t } && t == elapsed_ms,
        )
    } else {
        &&& np matches Phase::Wait { config: c, fingerprint: f } && c@ == config && f@ == fingerprint
        &&& a == Action::Sleep(POLL_INTERVAL_MS)
    }
}

/// The run ends successfully, printing `out`.
pub open spec fn emits(np: Phase, a: Action, out: Seq<char>) -> bool {
    &&& np is Done
    &&& a matches Action::Emit(o) && o@ == out
}

/// Asked for the start time of the recorded process.
pub open spec fn observes(a: Action, record: DaemonRecord) -> bool {
    a matches Action::ObserveProcess(pid) && pid == record.pid
}

/// The move from the start of discovery in `dir`.
pub open spec fn probes(np: Phase, a: Action, dir: Seq<char>, first: bool) -> bool {
    &&& np matches Phase::Discover { dir: d, first: f } && d@ == dir && f == first
    &&& a matches Action::ProbeConfig(path) && path@ == config_candidate(dir)
}

/// One step of a run: in phase `p`, after event `e`, the run moves to phase
/// `np` and asks for action `a`.
pub open spec fn step_spec(cfg: Activation, p: Phase, e: Event, np: Phase, a: Action) -> bool {
    match (p, e) {
        (Phase::Discover { dir, first }, Event::Probed(outcome)) => {
            if outcome == ProbeOutcome::Present {
                &&& np matches Phase::ReadConfig { config } && config@ == config_candidate(dir@)
                &&& a matches Action::ReadConfig(path) && path@ == config_candidate(dir@)
            } else if outcome == ProbeOutcome::Unreadable && first {
                fails_with(cfg, np, a, |e: ActivationError| e matches ActivationError::ConfigDiscoveryIo { dir: d } && d@ == dir@)
            } else {
                match parent_spec(dir@) {
                    Some(parent) => probes(np, a, parent, false),
                    None => emits(np, a, unset_block_spec(cfg.dialect)),
                }
            }
        },
        (Phase::ReadConfig { config }, Event::ConfigRead(bytes)) => match bytes {
            Ok(b) => {
                &&& np matches Phase::Lookup { config: c, fingerprint: f } && c@ == config@ && f@
                    == fingerprint_spec(b@)
                &&& loads_record(cfg, a, fingerprint_spec(b@))
            },
            Err(why) => fails_with(
                cfg,
                np,
                a,
                |e: ActivationError|
                    e matches ActivationError::FingerprintIo { path, cause } && path@ == config@
                        && cause@ == why@,
            ),
        },
        (Phase::Lookup { config, fingerprint }, Event::RecordLoaded(text)) => {
            if text matches Some(t) && is_record_for(t@, fingerprint@) {
                np matches Phase::CheckLive { config: c, fingerprint: f, record } && c@ == config@
                    && f@ == fingerprint@ && record@.wf() && record_text(record@) == text->0@
                    && record.fingerprint@ == fingerprint@
                    && observes(a, record)
            } else {
                &&& np matches Phase::Spawn { config: c, fingerprint: f } && c@ == config@ && f@
                    == fingerprint@
                &&& a matches Action::SpawnDaemon(path) && path@ == config@
            }
        },
        (Phase::CheckLive { config, fingerprint, record }, Event::ProcessObserved(start)) => {
            if start == Some(record.process_start_time) {
                emits(np, a, exports_spec(cfg.dialect, record@))
            } else {
                &&& np matches Phase::Remove { config: c, fingerprint: f } && c@ == config@ && f@
                    == fingerprint@
                &&& a matches Action::RemoveRecord(path) && path@ == record_path_spec(
                    cfg.state_root@,
                    fingerprint@,
                )
            }
        },
        (Phase::Remove { config, fingerprint }, Event::Removed) => {
            &&& np matches Phase::Spawn { config: c, fingerprint: f } && c@ == config@ && f@
                == fingerprint@
            &&& a matches Action::SpawnDaemon(path) && path@ == config@
        },
        (Phase::Spawn { config, fingerprint }, Event::Spawned(launched)) => {
            if launched is Ok {
                &&& np matches Phase::Poll { config: c, fingerprint: f, elapsed_ms } && c@ == config@
                    && f@ == fingerprint@ && elapsed_ms == 0
                &&& loads_record(cfg, a, fingerprint@)
            } else {
                fails_with(
                    cfg,
                    np,
                    a,
                    |e: ActivationError|
                        e matches ActivationError::DaemonSpawnFailure { config: c, cause }
                            && c@ == config@ && cause@ == launched->Err_0@,
                )
            }
        },
        (Phase::Poll { config, fingerprint, elapsed_ms }, Event::RecordLoaded(text)) => {
            if text matches Some(t) && is_record_for(t@, fingerprint@) {
                np matches Phase::PollCheck { config: c, fingerprint: f, elapsed_ms: el, record }
                    && c@ == config@ && f@ == fingerprint@ && el == elapsed_ms && record@.wf()
                    && record_text(record@) == text->0@ && record.fingerprint@ == fingerprint@
                    && observes(a, record)
            } else {
                wait_or_time_out(cfg, config@, fingerprint@, elapsed_ms, np, a)
            }
        },
        (Phase::PollCheck { config, fingerprint, elapsed_ms, record }, Event::ProcessObserved(start)) => {
            if start == Some(record.process_start_time) {
                emits(np, a, exports_spec(cfg.dialect, record@))
            } else {
                wait_or_time_out(cfg, config@, fingerprint@, elapsed_ms, np, a)
            }
        },
        (Phase::Wait { config, fingerprint }, Event::Slept(elapsed_ms)) => {
            &&& np matches Phase::Poll { config: c, fingerprint: f, elapsed_ms: el } && c@ == config@
                && f@ == fingerprint@ && el == elapsed_ms
            &&& loads_record(cfg, a, fingerprint@)
        },
        _ => fails_with(cfg, np, a, |e: ActivationError| e is UnexpectedEvent),
    }
}

/// The record that `text` holds for `fingerprint`, if any.
fn record_for(text: &Option<String>, fingerprint: &String) -> (r: Option<DaemonRecord>)
    ensures
        r matches Some(rec) ==> text is Some && rec@.wf() && record_text(rec@) == text->0@
            && rec.fingerprint@ == fingerprint@,
        r is None ==> !(text matches Some(t) && is_record_for(t@, fingerprint@)),
{
    let parsed = match text {
        Some(t) => parse_record(t.as_str()),
        None => None,
    };
    match parsed {
        Some(rec) => {
            if same_text(rec.fingerprint.as_str(), fingerprint.as_str()) {
                Some(rec)
            } else {
                None
            }
        },
        None => None,
    }
}

impl Activation {
    fn fail(&self, err: ActivationError) -> (r: (Phase, Action))
        ensures
            r.0 is Done,
            r.1 matches Action::Fail(out, e) && out@ == unset_block_spec(self.dialect) && e == err,
    {
        (Phase::Done, Action::Fail(unset_block(self.dialect), err))
    }

    fn load(&self, fingerprint: &String) -> (a: Action)
        ensures
            loads_record(*self, a, fingerprint@),
    {
        Action::LoadRecord(record_path(self.state_root.as_str(), fingerprint.as_str()))
    }

    fn wait_or_time_out(&self, config: String, fingerprint: String, elapsed_ms: u64) -> (r: (
        Phase,
        Action,
    ))
        ensures
            wait_or_time_out(*self, config@, fingerprint@, elapsed_ms, r.0, r.1),
    {
        if elapsed_ms > START_TIMEOUT_MS {
            self.fail(ActivationError::DaemonStartTimeout { elapsed_ms })
        } else {
            (Phase::Wait { config, fingerprint }, Action::Sleep(POLL_INTERVAL_MS))
        }
    }

    fn probe(dir: String, first: bool) -> (r: (Phase, Action))
        ensures
            probes(r.0, r.1, dir@, first),
    {
        let path = join(dir.as_str(), "plasma.toml");
        (Phase::Discover { dir, first }, Action::ProbeConfig(path))
    }

    /// The first step of a run that starts in directory `cwd`: look for the
    /// configuration file there.
    pub fn start(&self, cwd: String) -> (r: (Phase, Action))
        ensures
            probes(r.0, r.1, cwd@, true),
    {
        Activation::probe(cwd, true)
    }

    /// The step after event `e` in phase `p`: the next phase and the action
    /// that the caller performs next.
    pub fn step(&self, p: Phase, e: Event) -> (r: (Phase, Action))
        ensures
            step_spec(*self, p, e, r.0, r.1),
    {
        match p {
            Phase::Discover { dir, first } => match e {
                Event::Probed(outcome) => {
                    if outcome == ProbeOutcome::Present {
                        let config = join(dir.as_str(), "plasma.toml");
                        let path = config.clone();
                        (Phase::ReadConfig { config }, Action::ReadConfig(path))
                    } else if outcome == ProbeOutcome::Unreadable && first {
                        self.fail(ActivationError::ConfigDiscoveryIo { dir })
                    } else {
                        match parent_dir(dir.as_str()) {
                            Some(parent) => Activation::probe(parent, false),
                            None => (Phase::Done, Action::Emit(unset_block(self.dialect))),
                        }
                    }
                },
                _ => self.fail(ActivationError::UnexpectedEvent),
            },
            Phase::ReadConfig { config } => match e {
                Event::ConfigRead(bytes) => match bytes {
                    Ok(b) => {
                        let fingerprint = fingerprint(b.as_slice());
                        let a = self.load(&fingerprint);
                        (Phase::Lookup { config, fingerprint }, a)
                    },
                    Err(cause) => self.fail(ActivationError::FingerprintIo { path: config, cause }),
                },
                _ => self.fail(ActivationError::UnexpectedEvent),
            },
            Phase::Lookup { config, fingerprint } => match e {
                Event::RecordLoaded(text) => {
                    match record_for(&text, &fingerprint) {
                        Some(record) => {
                            let pid = record.pid;
                            (Phase::CheckLive { config, fingerprint, record }, Action::ObserveProcess(pid))
                        },
                        None => {
                            let path = config.clone();
                            (Phase::Spawn { config, fingerprint }, Action::SpawnDaemon(path))
                        },
                    }
                },
                _ => self.fail(ActivationError::UnexpectedEvent),
            },
            Phase::CheckLive { config, fingerprint, record } => match e {
                Event::ProcessObserved(start) => {
                    if record.is_live(start) {
                        (Phase::Done, Action::Emit(record.render_exports(self.dialect)))
                    } else {
                        let path = record_path(self.state_root.as_str(), fingerprint.as_str());
                        (Phase::Remove { config, fingerprint }, Action::RemoveRecord(path))
                    }
                },
                _ => self.fail(ActivationError::UnexpectedEvent),
            },
            Phase::Remove { config, fingerprint } => match e {
                Event::Removed => {
                    let path = config.clone();
                    (Phase::Spawn { config, fingerprint }, Action::SpawnDaemon(path))
                },
                _ => self.fail(ActivationError::UnexpectedEvent),
            },
            Phase::Spawn { config, fingerprint } => match e {
                Event::Spawned(launched) => match launched {
                    Ok(()) => {
                        let a = self.load(&fingerprint);
                        (Phase::Poll { config, fingerprint, elapsed_ms: 0 }, a)
                    },
                    Err(cause) => self.fail(ActivationError::DaemonSpawnFailure { config, cause }),
                },
                _ => self.fail(ActivationError::UnexpectedEvent),
            },
            Phase::Poll { config, fingerprint, elapsed_ms } => match e {
                Event::RecordLoaded(text) => {
                    match record_for(&text, &fingerprint) {
                        Some(record) => {
                            let pid = record.pid;
                            (
                                Phase::PollCheck { config, fingerprint, elapsed_ms, record },
                                Action::ObserveProcess(pid),
                            )
                        },
                        None => self.wait_or_time_out(config, fingerprint, elapsed_ms),
                    }
                },
                _ => self.fail(ActivationError::UnexpectedEvent),
            },
            Phase::PollCheck { config, fingerprint, elapsed_ms, record } => match e {
                Event::ProcessObserved(start) => {
                    if record.is_live(start) {
                        (Phase::Done, Action::Emit(record.render_exports(self.dialect)))
                    } else {
                        self.wait_or_time_out(config, fingerprint, elapsed_ms)
                    }
                },
                _ => self.fail(ActivationError::UnexpectedEvent),
            },
            Phase::Wait { config, fingerprint } => match e {
                Event::Slept(elapsed_ms) => {
                    let a = self.load(&fingerprint);
                    (Phase::Poll { config, fingerprint, elapsed_ms }, a)
                },
                _ => self.fail(ActivationError::UnexpectedEvent),
            },
            Phase::Done => self.fail(ActivationError::UnexpectedEvent),
        }
    }
}

/// Activating again against an unchanged record of a daemon that is still
/// live prints exactly the same text: the output depends on the dialect and
/// the record alone.
pub proof fn lemma_live_activation_idempotent(
    cfg: Activation,
    p1: Phase,
    e1: Event,
    np1: Phase,
    a1: Action,
    p2: Phase,
    e2: Event,
    np2: Phase,
    a2: Action,
)
    requires
        step_spec(cfg, p1, e1, np1, a1),
        step_spec(cfg, p2, e2, np2, a2),
        p1 is CheckLive,
        p2 is CheckLive,
        (p1->CheckLive_record)@.wf(),
        (p2->CheckLive_record)@.wf(),
        record_text((p1->CheckLive_record)@) == record_text((p2->CheckLive_record)@),
        e1 == Event::ProcessObserved(Some(p1->CheckLive_record.process_start_time)),
        e2 == Event::ProcessObserved(Some(p2->CheckLive_record.process_start_time)),
    ensures
        a1 is Emit,
        a2 is Emit,
        a1->Emit_0@ == a2->Emit_0@,
        a1->Emit_0@ == exports_spec(cfg.dialect, (p1->CheckLive_record)@),
{
    lemma_record_text_injective((p1->CheckLive_record)@, (p2->CheckLive_record)@);
}

/// A record whose pid is free, or held by a process that started at another
/// time, is not trusted: the run deletes the record and then spawns a new
/// daemon for the same configuration.
pub proof fn lemma_stale_record_recovery(
    cfg: Activation,
    p: Phase,
    e: Event,
    np: Phase,
    a: Action,
    np2: Phase,
    a2: Action,
)
    requires
        step_spec(cfg, p, e, np, a),
        p is CheckLive,
        e is ProcessObserved,
        e->ProcessObserved_0 != Some(p->CheckLive_record.process_start_time),
        step_spec(cfg, np, Event::Removed, np2, a2),
    ensures
        a is RemoveRecord,
        a->RemoveRecord_0@ == record_path_spec(cfg.state_root@, (p->CheckLive_fingerprint)@),
        a2 is SpawnDaemon,
        a2->SpawnDaemon_0@ == (p->CheckLive_config)@,
        np2 is Spawn,
{
}

/// While looking for the configuration file the run never spawns a daemon,
/// each further look is in a strictly shorter path, so the walk up ends, and
/// if it ends without finding a file it prints the unset block and nothing
/// else.
pub proof fn lemma_discovery_never_spawns(cfg: Activation, p: Phase, e: Event, np: Phase, a: Action)
    requires
        step_spec(cfg, p, e, np, a),
        p is Discover,
    ensures
        !(a is SpawnDaemon),
        a is Emit ==> a->Emit_0@ == unset_block_spec(cfg.dialect),
        np is Discover || np is ReadConfig || np is Done,
        np is Discover ==> (np->Discover_dir)@.len() < (p->Discover_dir)@.len(),
{
    lemma_parent_shorter((p->Discover_dir)@);
}

/// Every failure prints the unset block, never a partial set of exports,
/// and ends the run.
pub proof fn lemma_failure_prints_unsets(cfg: Activation, p: Phase, e: Event, np: Phase, a: Action)
    requires
        step_spec(cfg, p, e, np, a),
    ensures
        a is Fail ==> a->Fail_0@ == unset_block_spec(cfg.dialect) && np is Done,
{
}

/// After a spawn, once the bound has passed without a live record the run
/// fails with a timeout that carries the elapsed time, and prints the unset
/// block; before the bound it sleeps one interval and looks again.
pub proof fn lemma_start_timeout(cfg: Activation, p: Phase, e: Event, np: Phase, a: Action)
    requires
        step_spec(cfg, p, e, np, a),
        (p is Poll && e == Event::RecordLoaded(None)) || (p is PollCheck && e is ProcessObserved
            && e->ProcessObserved_0 != Some(p->PollCheck_record.process_start_time)),
    ensures
        ({
            let elapsed = if p is Poll {
                p->Poll_elapsed_ms
            } else {
                p->PollCheck_elapsed_ms
            };
            if elapsed > START_TIMEOUT_MS {
                &&& a is Fail
                &&& a->Fail_0@ == unset_block_spec(cfg.dialect)
                &&& a->Fail_1 == ActivationError::DaemonStartTimeout { elapsed_ms: elapsed }
            } else {
                a == Action::Sleep(POLL_INTERVAL_MS) && np is Wait
            }
        }),
{
}

/// The fingerprint exported by a run that reuses a live daemon is the
/// fingerprint of the configuration content that the run read: the content
/// alone, not the file's path, selects the daemon and its exports.
pub proof fn lemma_exported_hash_is_content_fingerprint(
    cfg: Activation,
    p0: Phase,
    bytes: Vec<u8>,
    p1: Phase,
    a1: Action,
    e1: Event,
    p2: Phase,
    a2: Action,
    e2: Event,
    p3: Phase,
    a3: Action,
)
    requires
        p0 is ReadConfig,
        step_spec(cfg, p0, Event::ConfigRead(Ok(bytes)), p1, a1),
        step_spec(cfg, p1, e1, p2, a2),
        p2 is CheckLive,
        step_spec(cfg, p2, e2, p3, a3),
        a3 is Emit,
    ensures
        a1->LoadRecord_0@ == record_path_spec(cfg.state_root@, fingerprint_spec(bytes@)),
        (p2->CheckLive_record).fingerprint@ == fingerprint_spec(bytes@),
        a3->Emit_0@ == exports_spec(cfg.dialect, (p2->CheckLive_record)@),
{
}

} // verus!
