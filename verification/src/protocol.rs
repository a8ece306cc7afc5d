//! The launch synchronization engine, as an explicit state machine.
//!
//! A launch interleaves this process with independently scheduled OS
//! processes: an optional bus filter proxy, the sandbox-creation executable,
//! and two privileged identity-mapping helpers. The only synchronization
//! primitives are pipes and socket pairs, so correctness is entirely a
//! question of ordering: proxy readiness before the sandbox starts, both
//! mapping helpers before the barrier byte, the barrier byte before the
//! sandboxed command runs. The machine below fixes that ordering. The caller
//! performs the blocking I/O each phase asks for and feeds the outcome back
//! as an [`Event`]; the machine decides what may happen next.

use vstd::prelude::*;

use crate::config::Config;
use crate::config::flag_set;
use crate::errors::LaunchError;

verus! {

/// Which optional sub-protocols one launch engages. Fixed once per launch,
/// before any process is spawned.
#[derive(Clone, Copy, PartialEq, Eq, Structural, Debug)]
pub struct Engagement {
    /// Run a bus filter proxy and its readiness handshake first.
    pub bridge: bool,
    /// Run the identity-mapping handshake around the sandbox's barrier.
    pub idmap: bool,
}

/// The sub-protocols a profile asks for: the bus filter bridge is engaged
/// for desktop profiles that did not request full bus access, and the
/// identity-mapping handshake whenever an elevated in-sandbox identity is
/// requested.
pub open spec fn spec_engagement(c: Config) -> Engagement {
    Engagement {
        bridge: flag_set(c.desktop_app) && !flag_set(c.full_dbus),
        idmap: flag_set(c.as_uid0),
    }
}

/// Decide, from the profile alone, which sub-protocols this launch engages.
pub fn engagement_of(c: &Config) -> (r: Engagement)
    ensures
        r == spec_engagement(*c),
{
    Engagement {
        bridge: crate::config::has_true(&c.desktop_app) && !crate::config::has_true(&c.full_dbus),
        idmap: crate::config::has_true(&c.as_uid0),
    }
}

/// Where the launch stands. Each non-terminal phase names the one blocking
/// step the driver must perform next; `Done` and `Failed` are terminal.
#[derive(Clone, Copy, PartialEq, Eq, Structural, Debug)]
pub enum Phase {
    /// Nothing has started yet.
    Init,
    /// The proxy was spawned; block until it writes its readiness byte.
    AwaitProxyReady,
    /// All prerequisites hold; spawn the sandbox-creation executable.
    SpawnSandbox,
    /// Block reading the sandbox's PID message from the info channel.
    AwaitInfo,
    /// Run the user-id mapping helper for this PID and wait for it.
    RunUidHelper { pid: u64 },
    /// Run the group-id mapping helper for this PID and wait for it.
    RunGidHelper { pid: u64 },
    /// Both helpers succeeded; write the one barrier byte.
    SignalBarrier,
    /// Block until the sandboxed process exits.
    AwaitExit,
    /// The sandboxed process exited with this status.
    Done { status: i32 },
    /// The launch was aborted.
    Failed { err: LaunchError },
}

/// The outcome of one blocking step, reported back by the driver.
#[derive(Clone, Copy, PartialEq, Eq, Structural, Debug)]
pub enum Event {
    /// Start the launch.
    Begin,
    /// One readiness byte arrived on the proxy sync channel.
    ProxyByte,
    /// The proxy sync channel closed before any byte arrived.
    ProxyEnded,
    /// The sandbox-creation executable was spawned.
    SandboxSpawned,
    /// The sandbox-creation executable could not be spawned.
    SpawnFailed,
    /// The info channel delivered the sandbox's PID.
    InfoPid { pid: u64 },
    /// The info channel closed, or delivered no usable PID message.
    InfoEnded,
    /// The user-id mapping helper exited with this code.
    UidHelperExit { code: i32 },
    /// The group-id mapping helper exited with this code.
    GidHelperExit { code: i32 },
    /// The barrier byte was written.
    BarrierWritten,
    /// The barrier byte could not be written.
    BarrierFailed,
    /// The sandboxed process exited with this status.
    SandboxExit { status: i32 },
}

/// The transition relation of the engine. An event that does not answer the
/// current phase leaves the phase unchanged; the terminal phases absorb
/// every event.
pub open spec fn next_phase(eng: Engagement, p: Phase, e: Event) -> Phase {
    match (p, e) {
        (Phase::Init, Event::Begin) => if eng.bridge {
            Phase::AwaitProxyReady
        } else {
            Phase::SpawnSandbox
        },
        (Phase::AwaitProxyReady, Event::ProxyByte) => Phase::SpawnSandbox,
        (Phase::AwaitProxyReady, Event::ProxyEnded) => Phase::Failed {
            err: LaunchError::HandshakeFailure,
        },
        (Phase::SpawnSandbox, Event::SandboxSpawned) => if eng.idmap {
            Phase::AwaitInfo
        } else {
            Phase::AwaitExit
        },
        (Phase::SpawnSandbox, Event::SpawnFailed) => Phase::Failed {
            err: LaunchError::ProcessSpawn,
        },
        (Phase::AwaitInfo, Event::InfoPid { pid }) => Phase::RunUidHelper { pid },
        (Phase::AwaitInfo, Event::InfoEnded) => Phase::Failed {
            err: LaunchError::HandshakeFailure,
        },
        (Phase::RunUidHelper { pid }, Event::UidHelperExit { code }) => if code == 0 {
            Phase::RunGidHelper { pid }
        } else {
            Phase::Failed { err: LaunchError::HelperFailure }
        },
        (Phase::RunGidHelper { pid: _ }, Event::GidHelperExit { code }) => if code == 0 {
            Phase::SignalBarrier
        } else {
            Phase::Failed { err: LaunchError::HelperFailure }
        },
        (Phase::SignalBarrier, Event::BarrierWritten) => Phase::AwaitExit,
        (Phase::SignalBarrier, Event::BarrierFailed) => Phase::Failed {
            err: LaunchError::HandshakeFailure,
        },
        (Phase::AwaitExit, Event::SandboxExit { status }) => Phase::Done { status },
        (_, _) => p,
    }
}

/// Advance the launch by one observed event.
pub fn step(eng: Engagement, p: Phase, e: Event) -> (r: Phase)
    ensures
        r == next_phase(eng, p, e),
{
    match (p, e) {
        (Phase::Init, Event::Begin) => if eng.bridge {
            Phase::AwaitProxyReady
        } else {
            Phase::SpawnSandbox
        },
        (Phase::AwaitProxyReady, Event::ProxyByte) => Phase::SpawnSandbox,
        (Phase::AwaitProxyReady, Event::ProxyEnded) => Phase::Failed {
            err: LaunchError::HandshakeFailure,
        },
        (Phase::SpawnSandbox, Event::SandboxSpawned) => if eng.idmap {
            Phase::AwaitInfo
        } else {
            Phase::AwaitExit
        },
        (Phase::SpawnSandbox, Event::SpawnFailed) => Phase::Failed {
            err: LaunchError::ProcessSpawn,
        },
        (Phase::AwaitInfo, Event::InfoPid { pid }) => Phase::RunUidHelper { pid },
        (Phase::AwaitInfo, Event::InfoEnded) => Phase::Failed {
            err: LaunchError::HandshakeFailure,
        },
        (Phase::RunUidHelper { pid }, Event::UidHelperExit { code }) => if code == 0 {
            Phase::RunGidHelper { pid }
        } else {
            Phase::Failed { err: LaunchError::HelperFailure }
        },
        (Phase::RunGidHelper { pid: _ }, Event::GidHelperExit { code }) => if code == 0 {
            Phase::SignalBarrier
        } else {
            Phase::Failed { err: LaunchError::HelperFailure }
        },
        (Phase::SignalBarrier, Event::BarrierWritten) => Phase::AwaitExit,
        (Phase::SignalBarrier, Event::BarrierFailed) => Phase::Failed {
            err: LaunchError::HandshakeFailure,
        },
        (Phase::AwaitExit, Event::SandboxExit { status }) => Phase::Done { status },
        (_, _) => p,
    }
}

/// The phase after consuming a whole event sequence, front to back.
pub open spec fn run(eng: Engagement, p: Phase, evs: Seq<Event>) -> Phase
    decreases evs.len(),
{
    if evs.len() == 0 {
        p
    } else {
        run(eng, next_phase(eng, p, evs[0]), evs.skip(1))
    }
}

/// What the sandbox executable's one info-channel message, a JSON object,
/// carries as its `child-pid` member, when the text parses and the member
/// is a non-negative integer in range.
pub uninterp spec fn child_pid_of(s: Seq<char>) -> Option<u64>;

/// Relies on `serde_json::from_str`, `Value::get` and `Value::as_u64`: the
/// parse of a complete JSON text, and the lookup of one member, depend on
/// the text alone.
#[verifier::external_body]
fn parse_child_pid(s: &str) -> (r: Option<u64>)
    ensures
        r == child_pid_of(s@),
{
    match serde_json::from_str::<serde_json::Value>(s) {
        Ok(v) => match v.get("child-pid") {
            Some(p) => p.as_u64(),
            None => None,
        },
        Err(_) => None,
    }
}

/// Turn what the info channel delivered into the event the engine consumes:
/// a message whose `child-pid` member is a usable PID reports that PID, and
/// a closed channel — or a message without a usable PID — reports the end of
/// the channel, which the engine treats as a handshake failure.
pub fn info_event(msg: Option<&str>) -> (e: Event)
    ensures
        match msg {
            Some(s) => match child_pid_of(s@) {
                Some(pid) => e == (Event::InfoPid { pid }),
                None => e == Event::InfoEnded,
            },
            None => e == Event::InfoEnded,
        },
{
    match msg {
        Some(s) => match parse_child_pid(s) {
            Some(pid) => Event::InfoPid { pid },
            None => Event::InfoEnded,
        },
        None => Event::InfoEnded,
    }
}

/// A terminal phase stays terminal: no event sequence leaves `Done` or
/// `Failed`.
pub proof fn lemma_terminal_absorbs(eng: Engagement, p: Phase, evs: Seq<Event>)
    requires
        p is Done || p is Failed,
    ensures
        run(eng, p, evs) == p,
    decreases evs.len(),
{
    if evs.len() > 0 {
        assert(next_phase(eng, p, evs[0]) == p);
        lemma_terminal_absorbs(eng, p, evs.skip(1));
    }
}

/// The readiness handshake admits exactly two outcomes: one byte on the sync
/// channel lets the sandbox be spawned, and a proxy that goes away without
/// signalling aborts the launch as a handshake failure — the caller is never
/// left to proceed, and never hangs in this engine once the channel closed.
pub proof fn lemma_proxy_handshake(eng: Engagement)
    ensures
        next_phase(eng, Phase::AwaitProxyReady, Event::ProxyByte) == Phase::SpawnSandbox,
        next_phase(eng, Phase::AwaitProxyReady, Event::ProxyEnded) == (Phase::Failed {
            err: LaunchError::HandshakeFailure,
        }),
        forall|e: Event|
            next_phase(eng, Phase::AwaitProxyReady, e) == Phase::SpawnSandbox ==> e
                == Event::ProxyByte,
{
}

/// The info channel admits exactly two outcomes: the sandbox's PID message
/// starts the mapping helpers for that PID, and a channel that ends without
/// a usable message aborts the launch as a handshake failure — an abrupt
/// sandbox failure is observed as end-of-channel, never waited out.
pub proof fn lemma_info_handshake(eng: Engagement, pid: u64)
    ensures
        next_phase(eng, Phase::AwaitInfo, Event::InfoPid { pid }) == (Phase::RunUidHelper {
            pid,
        }),
        next_phase(eng, Phase::AwaitInfo, Event::InfoEnded) == (Phase::Failed {
            err: LaunchError::HandshakeFailure,
        }),
        forall|e: Event|
            next_phase(eng, Phase::AwaitInfo, e) is RunUidHelper ==> e is InfoPid,
{
}

/// Phases at or beyond the decision to spawn the sandbox process.
pub open spec fn past_spawn_decision(p: Phase) -> bool {
    match p {
        Phase::Init => false,
        Phase::AwaitProxyReady => false,
        Phase::Failed { .. } => false,
        _ => true,
    }
}

proof fn lemma_bridge_precedes_spawn_rec(eng: Engagement, p: Phase, evs: Seq<Event>)
    requires
        eng.bridge,
    ensures
        past_spawn_decision(run(eng, p, evs)) ==> past_spawn_decision(p) || exists|i: int|
            0 <= i < evs.len() && evs[i] == Event::ProxyByte,
    decreases evs.len(),
{
    if evs.len() > 0 {
        let e = evs[0];
        let p1 = next_phase(eng, p, e);
        let rest = evs.skip(1);
        lemma_bridge_precedes_spawn_rec(eng, p1, rest);
        if past_spawn_decision(run(eng, p, evs)) && !past_spawn_decision(p) {
            if past_spawn_decision(p1) {
                // with the bridge engaged, the only step into the spawn
                // phases from outside them consumes the readiness byte
                assert(e == Event::ProxyByte);
                assert(evs[0] == Event::ProxyByte);
            } else {
                let i0 = choose|i: int| 0 <= i < rest.len() && rest[i] == Event::ProxyByte;
                assert(evs[i0 + 1] == Event::ProxyByte);
            }
        }
    }
}

/// When the bridge is engaged, proxy readiness strictly precedes the sandbox
/// start: a run that has reached the spawn decision, or anything after it,
/// has consumed the proxy's readiness byte.
pub proof fn lemma_bridge_precedes_spawn(eng: Engagement, evs: Seq<Event>)
    requires
        eng.bridge,
    ensures
        past_spawn_decision(run(eng, Phase::Init, evs)) ==> exists|i: int|
            0 <= i < evs.len() && evs[i] == Event::ProxyByte,
{
    lemma_bridge_precedes_spawn_rec(eng, Phase::Init, evs);
}

/// Phases that cannot be reached before the user-id helper has reported
/// success.
pub open spec fn past_uid_helper(p: Phase) -> bool {
    p is RunGidHelper || p is SignalBarrier
}

/// Phases that cannot be reached before the group-id helper has reported
/// success.
pub open spec fn past_gid_helper(p: Phase) -> bool {
    p is SignalBarrier
}

proof fn lemma_helpers_precede_rec(eng: Engagement, p: Phase, evs: Seq<Event>)
    ensures
        past_gid_helper(run(eng, p, evs)) ==> past_gid_helper(p) || (past_uid_helper(p)
            && exists|j: int|
            0 <= j < evs.len() && evs[j] == (Event::GidHelperExit { code: 0 })) || (exists|
            i: int,
            j: int,
        |
            0 <= i < j < evs.len() && evs[i] == (Event::UidHelperExit { code: 0 }) && evs[j] == (
            Event::GidHelperExit { code: 0 })),
        past_uid_helper(run(eng, p, evs)) ==> past_uid_helper(p) || (exists|i: int|
            0 <= i < evs.len() && evs[i] == (Event::UidHelperExit { code: 0 })),
    decreases evs.len(),
{
    if evs.len() > 0 {
        let e = evs[0];
        let p1 = next_phase(eng, p, e);
        let rest = evs.skip(1);
        lemma_helpers_precede_rec(eng, p1, rest);
        let fin = run(eng, p, evs);
        assert(fin == run(eng, p1, rest));
        if past_uid_helper(fin) && !past_uid_helper(p) {
            if past_uid_helper(p1) {
                // the first event itself carried the uid helper's success
                assert(e == (Event::UidHelperExit { code: 0 }));
                assert(evs[0] == (Event::UidHelperExit { code: 0 }));
            } else {
                let i0 = choose|i: int|
                    0 <= i < rest.len() && rest[i] == (Event::UidHelperExit { code: 0 });
                assert(evs[i0 + 1] == (Event::UidHelperExit { code: 0 }));
            }
        }
        if past_gid_helper(fin) && !past_gid_helper(p) {
            if past_gid_helper(p1) {
                // the gid helper succeeded on the first event, from a phase
                // already past the uid helper
                assert(p is RunGidHelper);
                assert(e == (Event::GidHelperExit { code: 0 }));
                assert(past_uid_helper(p) && evs[0] == (Event::GidHelperExit { code: 0 }));
            } else if past_uid_helper(p1) && (exists|j: int|
                0 <= j < rest.len() && rest[j] == (Event::GidHelperExit { code: 0 }))
                && !past_uid_helper(p) {
                // the uid success was the first event; the gid success follows
                assert(e == (Event::UidHelperExit { code: 0 }));
                let j0 = choose|j: int|
                    0 <= j < rest.len() && rest[j] == (Event::GidHelperExit { code: 0 });
                assert(evs[0] == (Event::UidHelperExit { code: 0 }));
                assert(evs[j0 + 1] == (Event::GidHelperExit { code: 0 }));
                assert(0 < j0 + 1 < evs.len());
            } else if past_uid_helper(p1) && (exists|j: int|
                0 <= j < rest.len() && rest[j] == (Event::GidHelperExit { code: 0 }))
                && past_uid_helper(p) {
                let j0 = choose|j: int|
                    0 <= j < rest.len() && rest[j] == (Event::GidHelperExit { code: 0 });
                assert(evs[j0 + 1] == (Event::GidHelperExit { code: 0 }));
            } else {
                // both successes lie inside the tail; shift their indices
                let (i0, j0) = choose|i: int, j: int|
                    0 <= i < j < rest.len() && rest[i] == (Event::UidHelperExit { code: 0 })
                        && rest[j] == (Event::GidHelperExit { code: 0 });
                assert(evs[i0 + 1] == (Event::UidHelperExit { code: 0 }));
                assert(evs[j0 + 1] == (Event::GidHelperExit { code: 0 }));
            }
        }
    }
}

/// The barrier byte is only ever due after both identity-mapping helpers
/// reported success, in order: a run that stands at `SignalBarrier` — the
/// only phase whose step writes the barrier — has consumed a successful
/// user-id helper exit strictly before a successful group-id helper exit.
/// In particular, a helper that exits non-zero keeps the barrier byte from
/// ever being written.
pub proof fn lemma_barrier_after_helpers(eng: Engagement, evs: Seq<Event>)
    ensures
        run(eng, Phase::Init, evs) is SignalBarrier ==> exists|i: int, j: int|
            0 <= i < j < evs.len() && evs[i] == (Event::UidHelperExit { code: 0 }) && evs[j] == (
            Event::GidHelperExit { code: 0 }),
{
    lemma_helpers_precede_rec(eng, Phase::Init, evs);
}

/// The barrier is one-shot: once the engine moves past `SignalBarrier` into
/// waiting for the sandbox to exit, no event sequence ever brings it back
/// to a phase whose step writes the barrier, so the barrier byte is written
/// at most once per launch.
pub proof fn lemma_barrier_one_shot(eng: Engagement, evs: Seq<Event>)
    ensures
        run(eng, Phase::AwaitExit, evs) is AwaitExit || run(eng, Phase::AwaitExit, evs) is Done,
    decreases evs.len(),
{
    if evs.len() > 0 {
        let p1 = next_phase(eng, Phase::AwaitExit, evs[0]);
        if p1 is AwaitExit {
            lemma_barrier_one_shot(eng, evs.skip(1));
        } else {
            lemma_terminal_absorbs(eng, p1, evs.skip(1));
        }
    }
}

/// A helper that exits non-zero aborts the launch at once: from either
/// helper phase, a non-zero exit steps to `Failed` with `HelperFailure`, and
/// every later event leaves it there.
pub proof fn lemma_helper_failure_aborts(
    eng: Engagement,
    pid: u64,
    code: i32,
    evs: Seq<Event>,
)
    requires
        code != 0,
    ensures
        next_phase(eng, Phase::RunUidHelper { pid }, Event::UidHelperExit { code }) == (
        Phase::Failed { err: LaunchError::HelperFailure }),
        next_phase(eng, Phase::RunGidHelper { pid }, Event::GidHelperExit { code }) == (
        Phase::Failed { err: LaunchError::HelperFailure }),
        run(eng, Phase::Failed { err: LaunchError::HelperFailure }, evs) == (Phase::Failed {
            err: LaunchError::HelperFailure,
        }),
{
    lemma_terminal_absorbs(eng, Phase::Failed { err: LaunchError::HelperFailure }, evs);
}

} // verus!
