use cch::Config;
use cch::bus::BusMode;
use cch::bus::bus_mode;
use cch::bus::proxy_args;
use cch::decimal::u32_to_dec;
use cch::decimal::u64_to_dec;
use cch::errors::LaunchError;
use cch::idmap::IdMapping;
use cch::idmap::helper_args;
use cch::plan::EnvSnapshot;
use cch::plan::bind_dirs;
use cch::plan::inherit_env_keys;
use cch::plan::sandbox_args;
use cch::plan::setenv_pairs;
use cch::protocol::Engagement;
use cch::protocol::Event;
use cch::protocol::Phase;
use cch::protocol::engagement_of;
use cch::protocol::step;
use cch::registry::find_entry;

fn plain_config(command: &str) -> Config {
    Config {
        command: command.to_owned(),
        desktop_app: None,
        use_net: None,
        inherit_path: None,
        inherit_lib: None,
        as_uid0: None,
        inherit_tty: None,
        full_dbus: None,
        bind: None,
        dev_bind: None,
        caps: None,
    }
}

fn empty_env() -> EnvSnapshot {
    EnvSnapshot {
        home: None,
        xdg_runtime_dir: None,
        wayland_display: None,
        dbus_addr: None,
        path_dirs: Vec::new(),
    }
}

#[test]
fn decimal_rendering() {
    assert_eq!(u64_to_dec(0), "0");
    assert_eq!(u64_to_dec(7), "7");
    assert_eq!(u64_to_dec(1234567890), "1234567890");
    assert_eq!(u32_to_dec(u32::MAX), "4294967295");
    assert_eq!(u64_to_dec(u64::MAX), "18446744073709551615");
}

#[test]
fn helper_invocation_ranges() {
    let m = IdMapping { real_id: 1000, sub_base: 100000, sub_count: 65536 };
    let args = helper_args(4321, &m);
    assert_eq!(args, vec!["4321", "0", "1000", "1", "1", "100000", "65536"]);
}

#[test]
fn proxy_invocation() {
    let args = proxy_args("unix:path=/run/user/1000/bus", "/tmp/xyz/dbus");
    assert_eq!(
        args,
        vec![
            "unix:path=/run/user/1000/bus",
            "/tmp/xyz/dbus",
            "--filter",
            "--talk=org.freedesktop.*",
            "--fd=0",
        ]
    );
}

#[test]
fn fixed_binds_for_plain_profile() {
    let c = plain_config("/bin/true");
    let binds = bind_dirs(&c, &empty_env()).unwrap();
    assert_eq!(
        binds,
        vec!["/etc/localtime", "/sys", "/lib", "/usr/lib", "/lib64", "/usr/lib64"]
    );
}

#[test]
fn desktop_profile_adds_display_binds() {
    let mut c = plain_config("/bin/app");
    c.desktop_app = Some(true);
    c.use_net = Some(true);
    c.bind = Some(vec!["/opt/data".to_owned()]);
    let mut env = empty_env();
    env.xdg_runtime_dir = Some("/run/user/1000".to_owned());
    env.wayland_display = Some("wayland-0".to_owned());
    let binds = bind_dirs(&c, &env).unwrap();
    assert_eq!(
        binds,
        vec![
            "/etc/localtime",
            "/sys",
            "/lib",
            "/usr/lib",
            "/lib64",
            "/usr/lib64",
            "/etc/fonts",
            "/usr/share",
            "/run/user/1000/wayland-0",
            "/etc/resolv.conf",
            "/opt/data",
        ]
    );
}

#[test]
fn desktop_profile_without_display_is_configuration_error() {
    let mut c = plain_config("/bin/app");
    c.desktop_app = Some(true);
    assert!(matches!(bind_dirs(&c, &empty_env()), Err(LaunchError::Configuration)));
}

#[test]
fn path_directories_follow_inherit_path() {
    let mut c = plain_config("/bin/app");
    c.inherit_path = Some(true);
    let mut env = empty_env();
    env.path_dirs = vec!["/usr/bin".to_owned(), "/bin".to_owned()];
    let binds = bind_dirs(&c, &env).unwrap();
    assert_eq!(
        binds,
        vec![
            "/etc/localtime",
            "/sys",
            "/lib",
            "/usr/lib",
            "/lib64",
            "/usr/lib64",
            "/usr/bin",
            "/bin",
        ]
    );
}

#[test]
fn env_keys_follow_profile() {
    let c = plain_config("/bin/true");
    assert_eq!(inherit_env_keys(&c), vec!["HOME", "SHELL", "TERM"]);

    let mut d = plain_config("/bin/app");
    d.desktop_app = Some(true);
    d.inherit_path = Some(true);
    assert_eq!(
        inherit_env_keys(&d),
        vec![
            "HOME",
            "SHELL",
            "TERM",
            "GTK_IM_MODULE",
            "GDK_IM_MODULE",
            "WAYLAND_DISPLAY",
            "XDG_RUNTIME_DIR",
            "XDG_SESSION_TYPE",
            "PATH",
        ]
    );

    let mut f = plain_config("/bin/app");
    f.full_dbus = Some(true);
    assert_eq!(
        inherit_env_keys(&f),
        vec!["HOME", "SHELL", "TERM", "DBUS_SESSION_BUS_ADDRESS"]
    );
}

#[test]
fn absent_variables_are_skipped() {
    let keys = vec!["HOME".to_owned(), "SHELL".to_owned(), "TERM".to_owned()];
    let vals = vec![Some("/home/alice".to_owned()), None, Some("xterm".to_owned())];
    let pairs = setenv_pairs(&keys, &vals);
    assert_eq!(
        pairs,
        vec![
            ("HOME".to_owned(), "/home/alice".to_owned()),
            ("TERM".to_owned(), "xterm".to_owned()),
        ]
    );
}

#[test]
fn scenario_plain_launch() {
    // profile {"command": "/bin/true"}: no bridge, no identity mapping,
    // the sandbox runs and its exit status is the launch's outcome
    let c = plain_config("/bin/true");
    let eng = engagement_of(&c);
    assert_eq!(eng, Engagement { bridge: false, idmap: false });

    let bus = bus_mode(&c, &None, "/tmp/xyz/dbus", &None).unwrap();
    assert!(matches!(bus, BusMode::Isolated));

    let mut p = step(eng, Phase::Init, Event::Begin);
    assert_eq!(p, Phase::SpawnSandbox);
    p = step(eng, p, Event::SandboxSpawned);
    assert_eq!(p, Phase::AwaitExit);
    p = step(eng, p, Event::SandboxExit { status: 0 });
    assert_eq!(p, Phase::Done { status: 0 });

    let binds = bind_dirs(&c, &empty_env()).unwrap();
    let argv = sandbox_args(&c, "/apps/true", "/home/alice", &binds, &bus, &Vec::new(), "/bin/true");
    assert_eq!(
        argv,
        vec![
            "--bind",
            "/apps/true/home",
            "/home/alice",
            "--unshare-all",
            "--bind",
            "/etc/localtime",
            "/etc/localtime",
            "--bind",
            "/sys",
            "/sys",
            "--bind",
            "/lib",
            "/lib",
            "--bind",
            "/usr/lib",
            "/usr/lib",
            "--bind",
            "/lib64",
            "/lib64",
            "--bind",
            "/usr/lib64",
            "/usr/lib64",
            "--clearenv",
            "--die-with-parent",
            "--unshare-user",
            "--dev",
            "/dev",
            "--proc",
            "/proc",
            "--tmpfs",
            "/tmp",
            "--new-session",
            "/bin/true",
        ]
    );
}

#[test]
fn scenario_elevated_identity() {
    // profile {"command": "/bin/true", "as_uid0": true} with caller alice
    // delegated alice:100000:65536: the helpers get the ranges
    // `0 <real> 1` and `1 100000 65536`, the barrier is written, exit 0
    let mut c = plain_config("/bin/true");
    c.as_uid0 = Some(true);
    let eng = engagement_of(&c);
    assert_eq!(eng, Engagement { bridge: false, idmap: true });

    let (base, count) = find_entry(b"alice:100000:65536", b"alice").unwrap();
    let real_uid = 1000;
    let m = IdMapping { real_id: real_uid, sub_base: base, sub_count: count };

    let mut p = step(eng, Phase::Init, Event::Begin);
    p = step(eng, p, Event::SandboxSpawned);
    assert_eq!(p, Phase::AwaitInfo);
    p = step(eng, p, Event::InfoPid { pid: 4321 });
    assert_eq!(p, Phase::RunUidHelper { pid: 4321 });

    let uid_args = helper_args(4321, &m);
    assert_eq!(uid_args, vec!["4321", "0", "1000", "1", "1", "100000", "65536"]);
    p = step(eng, p, Event::UidHelperExit { code: 0 });
    assert_eq!(p, Phase::RunGidHelper { pid: 4321 });
    p = step(eng, p, Event::GidHelperExit { code: 0 });
    assert_eq!(p, Phase::SignalBarrier);
    p = step(eng, p, Event::BarrierWritten);
    assert_eq!(p, Phase::AwaitExit);
    p = step(eng, p, Event::SandboxExit { status: 0 });
    assert_eq!(p, Phase::Done { status: 0 });
}

#[test]
fn scenario_desktop_without_bus_address() {
    // desktop_app true, full_dbus false, and no real bus address in the
    // environment: the launch fails as a configuration error before any
    // process is spawned
    let mut c = plain_config("/bin/app");
    c.desktop_app = Some(true);
    c.full_dbus = Some(false);
    let r = bus_mode(&c, &None, "/tmp/xyz/dbus", &Some("/run/user/1000".to_owned()));
    assert!(matches!(r, Err(LaunchError::Configuration)));
}

#[test]
fn bridged_bus_and_full_bus_modes() {
    let mut c = plain_config("/bin/app");
    c.desktop_app = Some(true);
    let r = bus_mode(&c, &Some("unix:abstract=x".to_owned()), "/tmp/xyz/dbus", &None).unwrap();
    match r {
        BusMode::Proxied { sock_path } => assert_eq!(sock_path, "/tmp/xyz/dbus"),
        _ => panic!("expected a proxied bus"),
    }

    let mut f = plain_config("/bin/app");
    f.full_dbus = Some(true);
    let r = bus_mode(&f, &None, "/tmp/xyz/dbus", &Some("/run/user/1000".to_owned())).unwrap();
    match r {
        BusMode::Direct { sock_path } => assert_eq!(sock_path, "/run/user/1000/bus"),
        _ => panic!("expected the direct bus"),
    }

    let r = bus_mode(&f, &None, "/tmp/xyz/dbus", &None);
    assert!(matches!(r, Err(LaunchError::Configuration)));
}

#[test]
fn argv_for_featureful_profile() {
    let mut c = plain_config("/opt/app/run");
    c.use_net = Some(true);
    c.desktop_app = Some(true);
    c.as_uid0 = Some(true);
    c.inherit_tty = Some(true);
    c.dev_bind = Some(vec!["/dev/dri".to_owned()]);
    c.caps = Some(vec!["CAP_NET_RAW".to_owned()]);
    let bus = BusMode::Proxied { sock_path: "/tmp/xyz/dbus".to_owned() };
    let binds = vec!["/sys".to_owned()];
    let pairs = vec![("HOME".to_owned(), "/home/alice".to_owned())];
    let argv = sandbox_args(&c, "/apps/app", "/home/alice", &binds, &bus, &pairs, "/opt/app/run");
    assert_eq!(
        argv,
        vec![
            "--bind",
            "/apps/app/home",
            "/home/alice",
            "--unshare-all",
            "--bind",
            "/sys",
            "/sys",
            "--clearenv",
            "--die-with-parent",
            "--unshare-user",
            "--share-net",
            "--dev",
            "/dev",
            "--proc",
            "/proc",
            "--dev-bind",
            "/dev",
            "/dev",
            "--dev-bind",
            "/dev/dri",
            "/dev/dri",
            "--tmpfs",
            "/tmp",
            "--bind",
            "/tmp/xyz/dbus",
            "/tmp/xyz/dbus",
            "--setenv",
            "DBUS_SESSION_BUS_ADDRESS",
            "unix:path=/tmp/xyz/dbus",
            "--cap-add",
            "CAP_NET_RAW",
            "--userns-block-fd",
            "3",
            "--info-fd",
            "4",
            "--setenv",
            "HOME",
            "/home/alice",
            "/opt/app/run",
        ]
    );
}

#[test]
fn error_descriptions_name_the_kind() {
    assert!(LaunchError::Configuration.describe().contains("configuration"));
    assert!(LaunchError::DelegationNotFound.describe().contains("delegated"));
    assert!(LaunchError::HelperFailure.describe().contains("helper"));
    assert!(LaunchError::HandshakeFailure.describe().contains("channel"));
    assert!(LaunchError::ProcessSpawn.describe().contains("spawn"));
}
