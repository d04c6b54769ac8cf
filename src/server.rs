//! The relay's setup: where its routes are mounted and how its web server runs.

use vstd::prelude::*;
use vstd::string::StringExecFns;

verus! {

/// The base path of the relay's websocket routes.
pub const WS_BASE: &'static str = "/ws";

/// Whether the web server takes a text as the base path of a mount: it
/// parses as an origin URI.
pub uninterp spec fn mount_base_ok(s: Seq<char>) -> bool;

/// Relies on rocket's `Origin::parse`, the parse that `Rocket::mount` applies
/// to its base (and panics where it fails): whether the text is an origin URI,
/// which depends on the text alone.
#[verifier::external_body]
fn is_mount_base(s: &str) -> (r: bool)
    ensures
        r == mount_base_ok(s@),
{
    rocket::http::uri::Origin::parse(s).is_ok()
}

/// A route the relay serves.
#[derive(Debug, Clone, Copy, PartialEq, Eq, Hash)]
pub enum RouteName {
    /// The websocket of a room, at `room/<key>`.
    RoomSocket,
    /// The protocol version, at `version`.
    Version,
    /// The discovery answer, at `about`.
    About,
}

/// Routes served under one base path.
#[derive(Debug, Clone, PartialEq, Eq)]
pub struct Mount {
    pub base: String,
    pub routes: Vec<RouteName>,
}

/// A web server under construction: the mounts made on it so far, in order.
#[derive(Debug, Clone, PartialEq, Eq)]
pub struct ServerPlan {
    pub mounts: Vec<Mount>,
}

impl ServerPlan {
    pub fn new() -> (r: ServerPlan)
        ensures
            r.mounts@.len() == 0,
    {
        ServerPlan { mounts: Vec::new() }
    }
}

/// Mounts the relay's room websocket under `/ws`.
pub fn bind(r: ServerPlan) -> (r2: ServerPlan)
    ensures
        r2.mounts@.len() == r.mounts@.len() + 1,
        forall|i: int| 0 <= i < r.mounts@.len() ==> r2.mounts@[i] == r.mounts@[i],
        r2.mounts@.last().base@ == WS_BASE@,
        r2.mounts@.last().routes@ == seq![RouteName::RoomSocket],
{
    let mut r2 = r;
    let ghost before = r2.mounts@;
    r2.mounts.push(Mount { base: WS_BASE.to_owned(), routes: vec![RouteName::RoomSocket] });
    proof {
        reveal_strlit("/ws");
        assert(r2.mounts@.drop_last() =~= before);
    }
    r2
}

/// The setup of the relay's websocket routes under a base path.
#[derive(Debug, Clone, PartialEq, Eq)]
pub struct WsFairing {
    base: String,
}

impl View for WsFairing {
    type V = Seq<char>;

    closed spec fn view(&self) -> Seq<char> {
        self.base@
    }
}

impl WsFairing {
    pub fn new(base: String) -> (r: WsFairing)
        ensures
            r@ == base@,
    {
        WsFairing { base }
    }

    /// The path under which the routes are mounted: the base followed by `/`.
    pub fn mount_point(&self) -> (r: String)
        ensures
            r@ == self@ + seq!['/'],
    {
        let r = self.base.clone().concat("/");
        proof {
            reveal_strlit("/");
        }
        r
    }

    /// Mounts the room websocket, the version and the discovery routes
    /// under this setup's mount point, where the web server takes it as a
    /// base path; refuses otherwise, where mounting would fail.
    pub fn ignite(&self, r: ServerPlan) -> (r2: Option<ServerPlan>)
        ensures
            r2.is_some() == mount_base_ok(self@ + seq!['/']),
            r2 matches Some(p) ==> p.mounts@.len() == r.mounts@.len() + 1 && (forall|i: int|
                0 <= i < r.mounts@.len() ==> p.mounts@[i] == r.mounts@[i])
                && p.mounts@.last().base@ == self@ + seq!['/'] && p.mounts@.last().routes@ == seq![
                RouteName::RoomSocket,
                RouteName::Version,
                RouteName::About,
            ],
    {
        let at = self.mount_point();
        if is_mount_base(at.as_str()) {
            let mut r2 = r;
            let ghost before = r2.mounts@;
            let routes = vec![RouteName::RoomSocket, RouteName::Version, RouteName::About];
            r2.mounts.push(Mount { base: at, routes });
            proof {
                assert(r2.mounts@.drop_last() =~= before);
            }
            Some(r2)
        } else {
            None
        }
    }
}

/// How the relay's web server runs.
#[derive(Debug, Clone, Copy, PartialEq, Eq)]
pub struct RelaySettings {
    /// Whether the server colours its console output.
    pub cli_colors: bool,
}

/// The web server settings of the relay: no coloured console output, the
/// server's defaults for the rest.
pub fn rocket() -> (r: RelaySettings)
    ensures
        !r.cli_colors,
{
    RelaySettings { cli_colors: false }
}

} // verus!
