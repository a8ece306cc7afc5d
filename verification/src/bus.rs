//! The bus filter bridge: deciding how the sandboxed process reaches the
//! message bus, and the invocation of the filtering proxy. The readiness
//! handshake itself is ordered by the protocol state machine.

use vstd::prelude::*;
use vstd::string::*;

use crate::config::Config;
use crate::config::flag_set;
use crate::config::has_true;
use crate::errors::LaunchError;
use crate::protocol::spec_engagement;
use crate::strs::views;

verus! {

/// How the sandboxed process reaches the message bus.
#[derive(Debug)]
pub enum BusMode {
    /// No bus inside the sandbox.
    Isolated,
    /// A filtering proxy listens on this private socket path, which is bound
    /// into the sandbox and advertised through the bus address variable.
    Proxied { sock_path: String },
    /// The real session bus socket is bound through, unfiltered.
    Direct { sock_path: String },
}

/// The argument list of the bus filtering proxy: the real bus address, the
/// private socket to create, filtering restricted to the desktop name
/// prefix, and the readiness signal on descriptor 0 — the slot the proxy's
/// descriptor set maps the private sync socket to.
pub open spec fn proxy_argv(addr: Seq<char>, sock: Seq<char>) -> Seq<Seq<char>> {
    seq![addr, sock, "--filter"@, "--talk=org.freedesktop.*"@, "--fd=0"@]
}

/// Render the filtering proxy's argument list, exactly as [`proxy_argv`]
/// lays it out.
pub fn proxy_args(bus_addr: &str, sock_path: &str) -> (r: Vec<String>)
    ensures
        views(r@) == proxy_argv(bus_addr@, sock_path@),
{
    let mut v: Vec<String> = Vec::new();
    v.push(String::from_str(bus_addr));
    v.push(String::from_str(sock_path));
    v.push(String::from_str("--filter"));
    v.push(String::from_str("--talk=org.freedesktop.*"));
    v.push(String::from_str("--fd=0"));
    proof {
        assert(views(v@) =~~= proxy_argv(bus_addr@, sock_path@));
    }
    v
}

/// Decide the bus disposition before anything is spawned. A desktop profile
/// without full bus access requires the real bus address: its absence aborts
/// the launch as a configuration error, before any process starts. A profile
/// with full bus access requires the runtime directory that holds the real
/// bus socket, on the same terms.
pub fn bus_mode(
    c: &Config,
    dbus_addr: &Option<String>,
    proxy_sock: &str,
    xdg_runtime_dir: &Option<String>,
) -> (r: Result<BusMode, LaunchError>)
    ensures
        spec_engagement(*c).bridge ==> match r {
            Ok(m) => dbus_addr is Some && (m matches BusMode::Proxied { sock_path } && sock_path@
                == proxy_sock@),
            Err(e) => dbus_addr is None && e == LaunchError::Configuration,
        },
        !spec_engagement(*c).bridge && flag_set(c.full_dbus) ==> match r {
            Ok(m) => (m matches BusMode::Direct { sock_path } && (xdg_runtime_dir matches Some(x)
                && sock_path@ == x@ + "/bus"@)),
            Err(e) => xdg_runtime_dir is None && e == LaunchError::Configuration,
        },
        !spec_engagement(*c).bridge && !flag_set(c.full_dbus) ==> r matches Ok(
            BusMode::Isolated,
        ),
{
    let eng = crate::protocol::engagement_of(c);
    if eng.bridge {
        match dbus_addr {
            Some(_) => Ok(BusMode::Proxied { sock_path: String::from_str(proxy_sock) }),
            None => Err(LaunchError::Configuration),
        }
    } else if has_true(&c.full_dbus) {
        match xdg_runtime_dir {
            Some(x) => {
                let mut p = x.clone();
                p.append("/bus");
                Ok(BusMode::Direct { sock_path: p })
            },
            None => Err(LaunchError::Configuration),
        }
    } else {
        Ok(BusMode::Isolated)
    }
}

} // verus!
