//! The sandbox launcher's planning logic: which host paths are bound into
//! the confined filesystem view, which environment variables pass through,
//! and the full argument list of the sandbox-creation executable.

use vstd::prelude::*;
use vstd::string::*;

use crate::bus::BusMode;
use crate::config::Config;
use crate::config::flag_set;
use crate::config::has_true;
use crate::decimal::dec_rep;
use crate::decimal::u32_to_dec;
use crate::errors::LaunchError;
use crate::fdset::spec_block_slot;
use crate::fdset::spec_info_slot;
use crate::fdset::userns_block_slot;
use crate::fdset::info_slot;
use crate::strs::views;
use crate::strs::extend_strings;
use crate::strs::lemma_views_add;

verus! {

/// What the launcher read from its own environment before planning, handed
/// in explicitly so that the plan is a function of profile and snapshot
/// alone. `path_dirs` holds the entries of the executable search path that
/// are directories, in order.
pub struct EnvSnapshot {
    pub home: Option<String>,
    pub xdg_runtime_dir: Option<String>,
    pub wayland_display: Option<String>,
    pub dbus_addr: Option<String>,
    pub path_dirs: Vec<String>,
}

/// The host paths every profile binds read-write into the sandbox.
pub open spec fn fixed_binds() -> Seq<Seq<char>> {
    seq!["/etc/localtime"@, "/sys"@, "/lib"@, "/usr/lib"@, "/lib64"@, "/usr/lib64"@]
}

/// The view of an optional string; empty when absent.
pub open spec fn opt_str(o: Option<String>) -> Seq<char> {
    match o {
        Option::Some(s) => s@,
        Option::None => Seq::empty(),
    }
}

/// The views of an optional list of strings; empty when absent.
pub open spec fn opt_views(o: Option<Vec<String>>) -> Seq<Seq<char>> {
    match o {
        Option::Some(v) => views(v@),
        Option::None => Seq::empty(),
    }
}

/// The extra binds a desktop profile adds: font and share directories, and
/// the active display socket inside the runtime directory.
pub open spec fn desktop_binds(env: EnvSnapshot) -> Seq<Seq<char>> {
    seq![
        "/etc/fonts"@,
        "/usr/share"@,
        opt_str(env.xdg_runtime_dir) + "/"@ + opt_str(env.wayland_display),
    ]
}

/// The ordered bind-path list a profile implies: the fixed system set, the
/// desktop additions, the search-path directories when the path is
/// inherited, the name-resolution file when networking is enabled, and the
/// profile's own extra binds. A desktop profile without the runtime
/// directory and display variables cannot be planned: configuration error.
pub open spec fn spec_bind_dirs(c: Config, env: EnvSnapshot) -> Result<Seq<Seq<char>>, LaunchError> {
    if flag_set(c.desktop_app) && !(env.xdg_runtime_dir is Some && env.wayland_display is Some) {
        Err(LaunchError::Configuration)
    } else {
        Ok(
            fixed_binds() + (if flag_set(c.desktop_app) {
                desktop_binds(env)
            } else {
                Seq::empty()
            }) + (if flag_set(c.inherit_path) {
                views(env.path_dirs@)
            } else {
                Seq::empty()
            }) + (if flag_set(c.use_net) {
                seq!["/etc/resolv.conf"@]
            } else {
                Seq::empty()
            }) + opt_views(c.bind),
        )
    }
}

/// Enumerate the bind paths for this profile, exactly as [`spec_bind_dirs`]
/// lays them out.
pub fn bind_dirs(c: &Config, env: &EnvSnapshot) -> (r: Result<Vec<String>, LaunchError>)
    ensures
        r matches Ok(v) ==> spec_bind_dirs(*c, *env) == Ok::<Seq<Seq<char>>, LaunchError>(
            views(v@),
        ),
        r matches Err(e) ==> spec_bind_dirs(*c, *env) == Err::<Seq<Seq<char>>, LaunchError>(e),
{
    let desktop = has_true(&c.desktop_app);
    let mut v: Vec<String> = Vec::new();
    v.push(String::from_str("/etc/localtime"));
    v.push(String::from_str("/sys"));
    v.push(String::from_str("/lib"));
    v.push(String::from_str("/usr/lib"));
    v.push(String::from_str("/lib64"));
    v.push(String::from_str("/usr/lib64"));
    proof {
        assert(views(v@) =~~= fixed_binds());
    }
    if desktop {
        let (x, w) = match (&env.xdg_runtime_dir, &env.wayland_display) {
            (Some(x), Some(w)) => (x, w),
            _ => {
                return Err(LaunchError::Configuration);
            },
        };
        v.push(String::from_str("/etc/fonts"));
        v.push(String::from_str("/usr/share"));
        let mut wl = x.clone();
        wl.append("/");
        wl.append(w.as_str());
        v.push(wl);
    }
    let ghost seg2 = fixed_binds() + (if flag_set(c.desktop_app) {
        desktop_binds(*env)
    } else {
        Seq::empty()
    });
    proof {
        assert(views(v@) =~~= seg2);
    }
    if has_true(&c.inherit_path) {
        let ghost before = v@;
        extend_strings(&mut v, &env.path_dirs);
        proof {
            lemma_views_add(before, env.path_dirs@);
        }
    }
    let ghost seg3 = seg2 + (if flag_set(c.inherit_path) {
        views(env.path_dirs@)
    } else {
        Seq::empty()
    });
    proof {
        assert(views(v@) =~~= seg3);
    }
    if has_true(&c.use_net) {
        v.push(String::from_str("/etc/resolv.conf"));
    }
    let ghost seg4 = seg3 + (if flag_set(c.use_net) {
        seq!["/etc/resolv.conf"@]
    } else {
        Seq::empty()
    });
    proof {
        assert(views(v@) =~~= seg4);
    }
    match &c.bind {
        Some(extra) => {
            let ghost before = v@;
            extend_strings(&mut v, extra);
            proof {
                lemma_views_add(before, extra@);
            }
        },
        None => {},
    }
    proof {
        assert(views(v@) =~~= seg4 + opt_views(c.bind));
    }
    Ok(v)
}

/// The environment variables whose host values pass through into the
/// sandbox: the base set, the desktop session variables for desktop
/// profiles, the bus address when the real bus is exposed, and the search
/// path when it is inherited.
pub open spec fn spec_env_keys(c: Config) -> Seq<Seq<char>> {
    seq!["HOME"@, "SHELL"@, "TERM"@] + (if flag_set(c.desktop_app) {
        seq![
            "GTK_IM_MODULE"@,
            "GDK_IM_MODULE"@,
            "WAYLAND_DISPLAY"@,
            "XDG_RUNTIME_DIR"@,
            "XDG_SESSION_TYPE"@,
        ]
    } else {
        Seq::empty()
    }) + (if flag_set(c.full_dbus) {
        seq!["DBUS_SESSION_BUS_ADDRESS"@]
    } else {
        Seq::empty()
    }) + (if flag_set(c.inherit_path) {
        seq!["PATH"@]
    } else {
        Seq::empty()
    })
}

/// Enumerate the pass-through variable names for this profile, exactly as
/// [`spec_env_keys`] lays them out.
pub fn inherit_env_keys(c: &Config) -> (r: Vec<String>)
    ensures
        views(r@) == spec_env_keys(*c),
{
    let mut v: Vec<String> = Vec::new();
    v.push(String::from_str("HOME"));
    v.push(String::from_str("SHELL"));
    v.push(String::from_str("TERM"));
    if has_true(&c.desktop_app) {
        v.push(String::from_str("GTK_IM_MODULE"));
        v.push(String::from_str("GDK_IM_MODULE"));
        v.push(String::from_str("WAYLAND_DISPLAY"));
        v.push(String::from_str("XDG_RUNTIME_DIR"));
        v.push(String::from_str("XDG_SESSION_TYPE"));
    }
    if has_true(&c.full_dbus) {
        v.push(String::from_str("DBUS_SESSION_BUS_ADDRESS"));
    }
    if has_true(&c.inherit_path) {
        v.push(String::from_str("PATH"));
    }
    proof {
        assert(views(v@) =~~= spec_env_keys(*c));
    }
    v
}

/// The key/value pairs actually passed through: keys whose host lookup found
/// a value, in key order, each with that value; absent variables are simply
/// skipped.
pub open spec fn spec_setenv_pairs(keys: Seq<String>, vals: Seq<Option<String>>) -> Seq<
    (String, String),
>
    decreases keys.len(),
{
    if keys.len() == 0 {
        Seq::empty()
    } else {
        spec_setenv_pairs(keys.drop_last(), vals.drop_last()) + (match vals.last() {
            Option::Some(val) => seq![(keys.last(), val)],
            Option::None => Seq::empty(),
        })
    }
}

/// Pair each variable name with the value its host lookup found, dropping
/// the names that had none, exactly as [`spec_setenv_pairs`] lays them out.
pub fn setenv_pairs(keys: &Vec<String>, vals: &Vec<Option<String>>) -> (r: Vec<(String, String)>)
    requires
        keys@.len() == vals@.len(),
    ensures
        r@ == spec_setenv_pairs(keys@, vals@),
{
    let mut out: Vec<(String, String)> = Vec::new();
    let mut i: usize = 0;
    while i < keys.len()
        invariant
            keys@.len() == vals@.len(),
            0 <= i <= keys@.len(),
            out@ == spec_setenv_pairs(keys@.take(i as int), vals@.take(i as int)),
        decreases keys@.len() - i,
    {
        match &vals[i] {
            Some(val) => {
                out.push((keys[i].clone(), val.clone()));
            },
            None => {},
        }
        proof {
            let k1 = keys@.take(i + 1);
            let v1 = vals@.take(i + 1);
            assert(k1.drop_last() =~= keys@.take(i as int));
            assert(v1.drop_last() =~= vals@.take(i as int));
            assert(k1.last() == keys@[i as int]);
            assert(v1.last() == vals@[i as int]);
            assert(out@ =~= spec_setenv_pairs(k1, v1));
        }
        i += 1;
    }
    proof {
        assert(keys@.take(keys@.len() as int) =~= keys@);
        assert(vals@.take(vals@.len() as int) =~= vals@);
    }
    out
}

/// `opt src dst` argument triples, one per item, binding each path to
/// itself.
pub open spec fn triples(opt: Seq<char>, items: Seq<Seq<char>>) -> Seq<Seq<char>>
    decreases items.len(),
{
    if items.len() == 0 {
        Seq::empty()
    } else {
        triples(opt, items.drop_last()) + seq![opt, items.last(), items.last()]
    }
}

/// `opt item` argument pairs, one per item.
pub open spec fn flag_pairs(opt: Seq<char>, items: Seq<Seq<char>>) -> Seq<Seq<char>>
    decreases items.len(),
{
    if items.len() == 0 {
        Seq::empty()
    } else {
        flag_pairs(opt, items.drop_last()) + seq![opt, items.last()]
    }
}

/// The views of a list of key/value pairs.
pub open spec fn pair_views(ps: Seq<(String, String)>) -> Seq<(Seq<char>, Seq<char>)> {
    ps.map_values(|p: (String, String)| (p.0@, p.1@))
}

/// `--setenv key value` argument triples, one per pair.
pub open spec fn setenv_args(pairs: Seq<(Seq<char>, Seq<char>)>) -> Seq<Seq<char>>
    decreases pairs.len(),
{
    if pairs.len() == 0 {
        Seq::empty()
    } else {
        setenv_args(pairs.drop_last()) + seq!["--setenv"@, pairs.last().0, pairs.last().1]
    }
}

/// The bus arguments of the sandbox invocation: a proxied bus binds the
/// private socket and points the bus address variable at it; a direct bus
/// binds the real socket through; an isolated sandbox gets neither.
pub open spec fn spec_bus_args(bus: BusMode) -> Seq<Seq<char>> {
    match bus {
        BusMode::Isolated => Seq::empty(),
        BusMode::Proxied { sock_path } => seq![
            "--bind"@,
            sock_path@,
            sock_path@,
            "--setenv"@,
            "DBUS_SESSION_BUS_ADDRESS"@,
            "unix:path="@ + sock_path@,
        ],
        BusMode::Direct { sock_path } => seq!["--bind"@, sock_path@, sock_path@],
    }
}

fn push_triples(v: &mut Vec<String>, opt: &str, items: &Vec<String>)
    ensures
        views(final(v)@) == views(old(v)@) + triples(opt@, views(items@)),
{
    let ghost pre = v@;
    let mut i: usize = 0;
    while i < items.len()
        invariant
            0 <= i <= items@.len(),
            views(v@) == views(pre) + triples(opt@, views(items@).take(i as int)),
        decreases items@.len() - i,
    {
        let ghost vh = v@;
        v.push(String::from_str(opt));
        v.push(items[i].clone());
        v.push(items[i].clone());
        proof {
            let vi = views(items@);
            assert(vi.take(i + 1).len() == i + 1);
            assert(vi.take(i + 1).drop_last() =~= vi.take(i as int));
            assert(vi.take(i + 1).last() == items@[i as int]@);
            assert(triples(opt@, vi.take(i + 1)) == triples(opt@, vi.take(i as int)) + seq![
                opt@,
                items@[i as int]@,
                items@[i as int]@,
            ]);
            assert(views(v@) =~~= views(vh) + seq![opt@, items@[i as int]@, items@[i as int]@]);
            assert(views(v@) =~~= views(pre) + triples(opt@, vi.take(i + 1)));
        }
        i += 1;
    }
    proof {
        assert(views(items@).take(items@.len() as int) =~= views(items@));
    }
}

fn push_flag_pairs(v: &mut Vec<String>, opt: &str, items: &Vec<String>)
    ensures
        views(final(v)@) == views(old(v)@) + flag_pairs(opt@, views(items@)),
{
    let ghost pre = v@;
    let mut i: usize = 0;
    while i < items.len()
        invariant
            0 <= i <= items@.len(),
            views(v@) == views(pre) + flag_pairs(opt@, views(items@).take(i as int)),
        decreases items@.len() - i,
    {
        let ghost vh = v@;
        v.push(String::from_str(opt));
        v.push(items[i].clone());
        proof {
            let vi = views(items@);
            assert(vi.take(i + 1).len() == i + 1);
            assert(vi.take(i + 1).drop_last() =~= vi.take(i as int));
            assert(vi.take(i + 1).last() == items@[i as int]@);
            assert(flag_pairs(opt@, vi.take(i + 1)) == flag_pairs(opt@, vi.take(i as int)) + seq![
                opt@,
                items@[i as int]@,
            ]);
            assert(views(v@) =~~= views(vh) + seq![opt@, items@[i as int]@]);
            assert(views(v@) =~~= views(pre) + flag_pairs(opt@, vi.take(i + 1)));
        }
        i += 1;
    }
    proof {
        assert(views(items@).take(items@.len() as int) =~= views(items@));
    }
}

fn push_setenv(v: &mut Vec<String>, pairs: &Vec<(String, String)>)
    ensures
        views(final(v)@) == views(old(v)@) + setenv_args(pair_views(pairs@)),
{
    let ghost pre = v@;
    let mut i: usize = 0;
    while i < pairs.len()
        invariant
            0 <= i <= pairs@.len(),
            views(v@) == views(pre) + setenv_args(pair_views(pairs@).take(i as int)),
        decreases pairs@.len() - i,
    {
        let ghost vh = v@;
        v.push(String::from_str("--setenv"));
        v.push(pairs[i].0.clone());
        v.push(pairs[i].1.clone());
        proof {
            let pv = pair_views(pairs@);
            assert(pv.take(i + 1).len() == i + 1);
            assert(pv.take(i + 1).drop_last() =~= pv.take(i as int));
            assert(pv.take(i + 1).last() == (pairs@[i as int].0@, pairs@[i as int].1@));
            assert(setenv_args(pv.take(i + 1)) == setenv_args(pv.take(i as int)) + seq![
                "--setenv"@,
                pairs@[i as int].0@,
                pairs@[i as int].1@,
            ]);
            assert(views(v@) =~~= views(vh) + seq![
                "--setenv"@,
                pairs@[i as int].0@,
                pairs@[i as int].1@,
            ]);
            assert(views(v@) =~~= views(pre) + setenv_args(pv.take(i + 1)));
        }
        i += 1;
    }
    proof {
        assert(pair_views(pairs@).take(pairs@.len() as int) =~= pair_views(pairs@));
    }
}

/// The whole argument list of the sandbox-creation executable for one
/// launch: the caller's private home bind, full namespace unsharing, the
/// planned binds each mapped to themselves, a cleared environment, device
/// and proc views, the bus disposition, capability grants, the two
/// identity-handshake descriptor numbers exactly where the descriptor set
/// places those channels, terminal/session policy, the surviving
/// environment pairs, and the command.
pub open spec fn spec_sandbox_args(
    c: Config,
    base_dir: Seq<char>,
    home: Seq<char>,
    binds: Seq<Seq<char>>,
    bus: BusMode,
    pairs: Seq<(Seq<char>, Seq<char>)>,
    command: Seq<char>,
) -> Seq<Seq<char>> {
    seq!["--bind"@, base_dir + "/home"@, home, "--unshare-all"@] + triples("--bind"@, binds)
        + seq!["--clearenv"@, "--die-with-parent"@, "--unshare-user"@] + (if flag_set(c.use_net) {
        seq!["--share-net"@]
    } else {
        Seq::empty()
    }) + seq!["--dev"@, "/dev"@, "--proc"@, "/proc"@] + (if flag_set(c.desktop_app) {
        seq!["--dev-bind"@, "/dev"@, "/dev"@]
    } else {
        Seq::empty()
    }) + triples("--dev-bind"@, opt_views(c.dev_bind)) + seq!["--tmpfs"@, "/tmp"@] + spec_bus_args(
        bus,
    ) + flag_pairs("--cap-add"@, opt_views(c.caps)) + (if flag_set(c.as_uid0) {
        seq![
            "--userns-block-fd"@,
            dec_rep(spec_block_slot(flag_set(c.inherit_tty)) as nat),
            "--info-fd"@,
            dec_rep(spec_info_slot(flag_set(c.inherit_tty)) as nat),
        ]
    } else {
        Seq::empty()
    }) + (if !flag_set(c.inherit_tty) {
        seq!["--new-session"@]
    } else {
        Seq::empty()
    }) + setenv_args(pairs) + seq![command]
}

/// Assemble the sandbox-creation executable's argument list, exactly as
/// [`spec_sandbox_args`] lays it out. `binds` is the resolved bind-path
/// list; `env_pairs` the surviving pass-through pairs.
#[verifier::rlimit(60)]
pub fn sandbox_args(
    c: &Config,
    base_dir: &str,
    home: &str,
    binds: &Vec<String>,
    bus: &BusMode,
    env_pairs: &Vec<(String, String)>,
    command: &str,
) -> (r: Vec<String>)
    ensures
        views(r@) == spec_sandbox_args(
            *c,
            base_dir@,
            home@,
            views(binds@),
            *bus,
            pair_views(env_pairs@),
            command@,
        ),
{
    let mut v: Vec<String> = Vec::new();
    v.push(String::from_str("--bind"));
    let mut home_src = String::from_str(base_dir);
    home_src.append("/home");
    v.push(home_src);
    v.push(String::from_str(home));
    v.push(String::from_str("--unshare-all"));
    let ghost a1 = seq!["--bind"@, base_dir@ + "/home"@, home@, "--unshare-all"@];
    proof {
        assert(views(v@) =~~= a1);
    }
    push_triples(&mut v, "--bind", binds);
    let ghost a2 = a1 + triples("--bind"@, views(binds@));
    v.push(String::from_str("--clearenv"));
    v.push(String::from_str("--die-with-parent"));
    v.push(String::from_str("--unshare-user"));
    let ghost a3 = a2 + seq!["--clearenv"@, "--die-with-parent"@, "--unshare-user"@];
    proof {
        assert(views(v@) =~~= a3);
    }
    if has_true(&c.use_net) {
        v.push(String::from_str("--share-net"));
    }
    let ghost a4 = a3 + (if flag_set(c.use_net) {
        seq!["--share-net"@]
    } else {
        Seq::empty()
    });
    proof {
        assert(views(v@) =~~= a4);
    }
    v.push(String::from_str("--dev"));
    v.push(String::from_str("/dev"));
    v.push(String::from_str("--proc"));
    v.push(String::from_str("/proc"));
    let ghost a5 = a4 + seq!["--dev"@, "/dev"@, "--proc"@, "/proc"@];
    proof {
        assert(views(v@) =~~= a5);
    }
    if has_true(&c.desktop_app) {
        v.push(String::from_str("--dev-bind"));
        v.push(String::from_str("/dev"));
        v.push(String::from_str("/dev"));
    }
    let ghost a6 = a5 + (if flag_set(c.desktop_app) {
        seq!["--dev-bind"@, "/dev"@, "/dev"@]
    } else {
        Seq::empty()
    });
    proof {
        assert(views(v@) =~~= a6);
    }
    match &c.dev_bind {
        Some(d) => push_triples(&mut v, "--dev-bind", d),
        None => {},
    }
    let ghost a7 = a6 + triples("--dev-bind"@, opt_views(c.dev_bind));
    proof {
        assert(views(v@) =~~= a7);
    }
    v.push(String::from_str("--tmpfs"));
    v.push(String::from_str("/tmp"));
    let ghost a8 = a7 + seq!["--tmpfs"@, "/tmp"@];
    proof {
        assert(views(v@) =~~= a8);
    }
    match bus {
        BusMode::Isolated => {},
        BusMode::Proxied { sock_path } => {
            v.push(String::from_str("--bind"));
            v.push(sock_path.clone());
            v.push(sock_path.clone());
            v.push(String::from_str("--setenv"));
            v.push(String::from_str("DBUS_SESSION_BUS_ADDRESS"));
            let mut addr = String::from_str("unix:path=");
            addr.append(sock_path.as_str());
            v.push(addr);
        },
        BusMode::Direct { sock_path } => {
            v.push(String::from_str("--bind"));
            v.push(sock_path.clone());
            v.push(sock_path.clone());
        },
    }
    let ghost a9 = a8 + spec_bus_args(*bus);
    proof {
        assert(views(v@) =~~= a9);
    }
    match &c.caps {
        Some(caps) => push_flag_pairs(&mut v, "--cap-add", caps),
        None => {},
    }
    let ghost a10 = a9 + flag_pairs("--cap-add"@, opt_views(c.caps));
    proof {
        assert(views(v@) =~~= a10);
    }
    if has_true(&c.as_uid0) {
        let tty = has_true(&c.inherit_tty);
        v.push(String::from_str("--userns-block-fd"));
        v.push(u32_to_dec(userns_block_slot(tty)));
        v.push(String::from_str("--info-fd"));
        v.push(u32_to_dec(info_slot(tty)));
    }
    let ghost a11 = a10 + (if flag_set(c.as_uid0) {
        seq![
            "--userns-block-fd"@,
            dec_rep(spec_block_slot(flag_set(c.inherit_tty)) as nat),
            "--info-fd"@,
            dec_rep(spec_info_slot(flag_set(c.inherit_tty)) as nat),
        ]
    } else {
        Seq::empty()
    });
    proof {
        assert(views(v@) =~~= a11);
    }
    if !has_true(&c.inherit_tty) {
        v.push(String::from_str("--new-session"));
    }
    let ghost a12 = a11 + (if !flag_set(c.inherit_tty) {
        seq!["--new-session"@]
    } else {
        Seq::empty()
    });
    proof {
        assert(views(v@) =~~= a12);
    }
    push_setenv(&mut v, env_pairs);
    let ghost a13 = a12 + setenv_args(pair_views(env_pairs@));
    v.push(String::from_str(command));
    proof {
        assert(views(v@) =~~= a13 + seq![command@]);
        assert(a13 + seq![command@] == spec_sandbox_args(
            *c,
            base_dir@,
            home@,
            views(binds@),
            *bus,
            pair_views(env_pairs@),
            command@,
        ));
    }
    v
}

} // verus!
