use cch::errors::LaunchError;
use cch::protocol::Engagement;
use cch::protocol::Event;
use cch::protocol::Phase;
use cch::protocol::engagement_of;
use cch::protocol::info_event;
use cch::protocol::step;
use cch::Config;

fn plain_config(command: &str) -> Config {
    Config {
        command: command.to_owned(),
        desktop_app: None,
        use_net: None,
        inherit_path: None,
        inherit_lib: None,
        as_uid0: None,
        inherit_tty: None,
        full_dbus: None,
        bind: None,
        dev_bind: None,
        caps: None,
    }
}

#[test]
fn engagement_follows_profile() {
    let c = plain_config("/bin/true");
    assert_eq!(engagement_of(&c), Engagement { bridge: false, idmap: false });

    let mut desktop = plain_config("/bin/true");
    desktop.desktop_app = Some(true);
    assert_eq!(engagement_of(&desktop), Engagement { bridge: true, idmap: false });

    desktop.full_dbus = Some(true);
    assert_eq!(engagement_of(&desktop), Engagement { bridge: false, idmap: false });

    let mut elevated = plain_config("/bin/true");
    elevated.as_uid0 = Some(true);
    assert_eq!(engagement_of(&elevated), Engagement { bridge: false, idmap: true });
}

#[test]
fn proxy_exit_before_signal_fails_handshake() {
    let eng = Engagement { bridge: true, idmap: false };
    let p = step(eng, Phase::Init, Event::Begin);
    assert_eq!(p, Phase::AwaitProxyReady);
    let p = step(eng, p, Event::ProxyEnded);
    assert_eq!(p, Phase::Failed { err: LaunchError::HandshakeFailure });
}

#[test]
fn proxy_byte_releases_the_launch() {
    let eng = Engagement { bridge: true, idmap: false };
    let p = step(eng, Phase::Init, Event::Begin);
    let p = step(eng, p, Event::ProxyByte);
    assert_eq!(p, Phase::SpawnSandbox);
}

#[test]
fn failed_helper_never_reaches_barrier() {
    let eng = Engagement { bridge: false, idmap: true };
    let mut p = step(eng, Phase::Init, Event::Begin);
    p = step(eng, p, Event::SandboxSpawned);
    p = step(eng, p, Event::InfoPid { pid: 4321 });
    assert_eq!(p, Phase::RunUidHelper { pid: 4321 });
    p = step(eng, p, Event::UidHelperExit { code: 1 });
    assert_eq!(p, Phase::Failed { err: LaunchError::HelperFailure });
    // the machine stays failed: no later event can reach the barrier phase
    p = step(eng, p, Event::GidHelperExit { code: 0 });
    p = step(eng, p, Event::BarrierWritten);
    assert_eq!(p, Phase::Failed { err: LaunchError::HelperFailure });
}

#[test]
fn failed_gid_helper_never_reaches_barrier() {
    let eng = Engagement { bridge: false, idmap: true };
    let mut p = step(eng, Phase::Init, Event::Begin);
    p = step(eng, p, Event::SandboxSpawned);
    p = step(eng, p, Event::InfoPid { pid: 7 });
    p = step(eng, p, Event::UidHelperExit { code: 0 });
    assert_eq!(p, Phase::RunGidHelper { pid: 7 });
    p = step(eng, p, Event::GidHelperExit { code: 3 });
    assert_eq!(p, Phase::Failed { err: LaunchError::HelperFailure });
}

#[test]
fn barrier_only_after_both_helpers() {
    let eng = Engagement { bridge: false, idmap: true };
    let mut p = step(eng, Phase::Init, Event::Begin);
    p = step(eng, p, Event::SandboxSpawned);
    assert_eq!(p, Phase::AwaitInfo);
    p = step(eng, p, Event::InfoPid { pid: 4321 });
    p = step(eng, p, Event::UidHelperExit { code: 0 });
    p = step(eng, p, Event::GidHelperExit { code: 0 });
    assert_eq!(p, Phase::SignalBarrier);
    p = step(eng, p, Event::BarrierWritten);
    assert_eq!(p, Phase::AwaitExit);
    p = step(eng, p, Event::SandboxExit { status: 0 });
    assert_eq!(p, Phase::Done { status: 0 });
}

#[test]
fn info_channel_closed_fails_handshake() {
    let eng = Engagement { bridge: false, idmap: true };
    let mut p = step(eng, Phase::Init, Event::Begin);
    p = step(eng, p, Event::SandboxSpawned);
    p = step(eng, p, info_event(None));
    assert_eq!(p, Phase::Failed { err: LaunchError::HandshakeFailure });
}

#[test]
fn info_message_carries_the_pid() {
    assert_eq!(info_event(Some("{\"child-pid\": 42}")), Event::InfoPid { pid: 42 });
    assert_eq!(
        info_event(Some("{\"child-pid\": 31337, \"other\": true}")),
        Event::InfoPid { pid: 31337 }
    );
    assert_eq!(info_event(Some("{\"other\": 1}")), Event::InfoEnded);
    assert_eq!(info_event(Some("{\"child-pid\": -3}")), Event::InfoEnded);
    assert_eq!(info_event(Some("not json")), Event::InfoEnded);
    assert_eq!(info_event(None), Event::InfoEnded);
}

#[test]
fn spawn_failure_aborts() {
    let eng = Engagement { bridge: false, idmap: false };
    let mut p = step(eng, Phase::Init, Event::Begin);
    assert_eq!(p, Phase::SpawnSandbox);
    p = step(eng, p, Event::SpawnFailed);
    assert_eq!(p, Phase::Failed { err: LaunchError::ProcessSpawn });
}
