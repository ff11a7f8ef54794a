//! SSH tunnels: how each kind is asked of `ssh`, and the list of running
//! tunnels with the processes that serve them.

use vstd::prelude::*;
use crate::error::{LagideError, Result};
use crate::text::{concat2, decimal, decimal_string, owned, str_eq};
use crate::wsl::string_views;

verus! {

/// The kind of an SSH tunnel.
#[derive(Debug, Clone, Copy, PartialEq, Eq, Structural)]
pub enum TunnelType {
    /// `-L`: a local port forwarded to a remote destination.
    Local,
    /// `-R`: a remote port forwarded to a local destination.
    Remote,
    /// `-D`: a SOCKS proxy through the SSH server.
    Dynamic,
}

/// The name under which a tunnel kind is shown.
pub open spec fn tunnel_type_label(t: TunnelType) -> Seq<char> {
    match t {
        TunnelType::Local => "Local (-L)"@,
        TunnelType::Remote => "Remote (-R)"@,
        TunnelType::Dynamic => "Dynamic (-D)"@,
    }
}

impl TunnelType {
    /// The name under which the tunnel kind is shown.
    pub fn to_string(&self) -> (r: String)
        ensures
            r@ == tunnel_type_label(*self),
    {
        match self {
            TunnelType::Local => owned("Local (-L)"),
            TunnelType::Remote => owned("Remote (-R)"),
            TunnelType::Dynamic => owned("Dynamic (-D)"),
        }
    }
}

/// What a tunnel forwards, and through which SSH server.
#[derive(Debug, Clone)]
pub struct TunnelConfig {
    pub name: String,
    pub tunnel_type: TunnelType,
    pub local_port: u16,
    pub remote_host: String,
    pub remote_port: u16,
    pub ssh_host: String,
    pub ssh_port: u16,
    pub ssh_user: String,
}

/// The `ssh` option that asks for the tunnel: `-L local:host:remote`,
/// `-R remote:host:local` or `-D local`.
pub open spec fn forward_option(c: TunnelConfig) -> Seq<char> {
    match c.tunnel_type {
        TunnelType::Local => "-L "@ + decimal(c.local_port as nat) + ":"@ + c.remote_host@ + ":"@
            + decimal(c.remote_port as nat),
        TunnelType::Remote => "-R "@ + decimal(c.remote_port as nat) + ":"@ + c.remote_host@
            + ":"@ + decimal(c.local_port as nat),
        TunnelType::Dynamic => "-D "@ + decimal(c.local_port as nat),
    }
}

/// The arguments of the `ssh` run that serves the tunnel: no remote
/// command, in the background, the forwarding option, the port and
/// `user@host`.
pub open spec fn tunnel_ssh_args(c: TunnelConfig) -> Seq<Seq<char>> {
    seq![
        "-N"@,
        "-f"@,
        forward_option(c),
        "-p"@,
        decimal(c.ssh_port as nat),
        c.ssh_user@ + "@"@ + c.ssh_host@,
    ]
}

impl TunnelConfig {
    /// The `ssh` option that asks for this tunnel.
    pub fn forward_option(&self) -> (r: String)
        ensures
            r@ == forward_option(*self),
    {
        match self.tunnel_type {
            TunnelType::Local => {
                let mut r = owned("-L ");
                r.append(decimal_string(self.local_port as u64).as_str());
                r.append(":");
                r.append(self.remote_host.as_str());
                r.append(":");
                r.append(decimal_string(self.remote_port as u64).as_str());
                r
            },
            TunnelType::Remote => {
                let mut r = owned("-R ");
                r.append(decimal_string(self.remote_port as u64).as_str());
                r.append(":");
                r.append(self.remote_host.as_str());
                r.append(":");
                r.append(decimal_string(self.local_port as u64).as_str());
                r
            },
            TunnelType::Dynamic => concat2("-D ", decimal_string(self.local_port as u64).as_str()),
        }
    }

    /// The arguments of the `ssh` run that serves this tunnel.
    pub fn ssh_args(&self) -> (r: Vec<String>)
        ensures
            string_views(r@) == tunnel_ssh_args(*self),
    {
        let mut r: Vec<String> = Vec::new();
        r.push(owned("-N"));
        r.push(owned("-f"));
        r.push(self.forward_option());
        r.push(owned("-p"));
        r.push(decimal_string(self.ssh_port as u64));
        let mut target = self.ssh_user.clone();
        target.append("@");
        target.append(self.ssh_host.as_str());
        r.push(target);
        assert(string_views(r@) =~= tunnel_ssh_args(*self));
        r
    }
}

/// A running tunnel and the process that serves it.
pub struct ActiveTunnel<P> {
    pub config: TunnelConfig,
    pub process: P,
}

/// `i` is the first position in `t` of a tunnel named `name`.
pub open spec fn is_first_named<P>(t: Seq<ActiveTunnel<P>>, name: Seq<char>, i: int) -> bool {
    &&& 0 <= i < t.len()
    &&& t[i].config.name@ == name
    &&& forall|j: int| 0 <= j < i ==> #[trigger] t[j].config.name@ != name
}

/// No tunnel in `t` is named `name`.
pub open spec fn has_no_name<P>(t: Seq<ActiveTunnel<P>>, name: Seq<char>) -> bool {
    forall|j: int| 0 <= j < t.len() ==> #[trigger] t[j].config.name@ != name
}

/// The running tunnels, in the order they were created.
pub struct TunnelManager<P> {
    pub tunnels: Vec<ActiveTunnel<P>>,
}

impl<P> TunnelManager<P> {
    /// No tunnels.
    pub fn new() -> (r: Self)
        ensures
            r.tunnels@ == Seq::<ActiveTunnel<P>>::empty(),
    {
        TunnelManager { tunnels: Vec::new() }
    }

    /// Records the tunnel `config`, served by the process that was started
    /// for it; where the process could not be started, the error with its
    /// text, and nothing recorded.
    pub fn create_tunnel(&mut self, config: TunnelConfig, spawned: core::result::Result<P, String>) -> (r: Result<()>)
        ensures
            match spawned {
                Ok(p) => r is Ok && final(self).tunnels@ == old(self).tunnels@.push(
                    ActiveTunnel { config, process: p },
                ),
                Err(e) => r matches Err(LagideError::Tunnel(m)) && m@ == "Failed to create tunnel: "@
                    + e@ && final(self).tunnels@ == old(self).tunnels@,
            },
    {
        match spawned {
            Ok(process) => {
                self.tunnels.push(ActiveTunnel { config, process });
                Ok(())
            },
            Err(e) => Err(LagideError::Tunnel(concat2("Failed to create tunnel: ", e.as_str()))),
        }
    }

    /// The position of the first tunnel named `name`.
    fn position(&self, name: &str) -> (r: Option<usize>)
        ensures
            match r {
                Some(i) => is_first_named(self.tunnels@, name@, i as int),
                None => has_no_name(self.tunnels@, name@),
            },
    {
        let mut i: usize = 0;
        while i < self.tunnels.len()
            invariant
                i <= self.tunnels@.len(),
                forall|j: int| 0 <= j < i ==> #[trigger] self.tunnels@[j].config.name@ != name@,
            decreases self.tunnels@.len() - i,
        {
            if str_eq(self.tunnels[i].config.name.as_str(), name) {
                return Some(i);
            }
            i += 1;
        }
        None
    }

    /// Takes the first tunnel named `name` out of the list, for its process
    /// to be stopped; where there is none, the error that says so.
    pub fn stop_tunnel(&mut self, name: &str) -> (r: Result<ActiveTunnel<P>>)
        ensures
            match r {
                Ok(t) => exists|i: int|
                    is_first_named(old(self).tunnels@, name@, i) && t == old(self).tunnels@[i]
                        && final(self).tunnels@ == old(self).tunnels@.remove(i),
                Err(e) => e matches LagideError::Tunnel(m) && m@ == "Tunnel '"@ + name@ + "' not found"@
                    && has_no_name(old(self).tunnels@, name@) && final(self).tunnels@ == old(
                    self,
                ).tunnels@,
            },
    {
        match self.position(name) {
            Some(pos) => Ok(self.tunnels.remove(pos)),
            None => {
                let mut m = owned("Tunnel '");
                m.append(name);
                m.append("' not found");
                Err(LagideError::Tunnel(m))
            },
        }
    }

    /// Takes every tunnel out of the list, for their processes to be
    /// stopped.
    pub fn stop_all(&mut self) -> (r: Vec<ActiveTunnel<P>>)
        ensures
            r@ == old(self).tunnels@,
            final(self).tunnels@ == Seq::<ActiveTunnel<P>>::empty(),
    {
        let mut r: Vec<ActiveTunnel<P>> = Vec::new();
        std::mem::swap(&mut r, &mut self.tunnels);
        r
    }

    /// The configurations of the running tunnels, in order.
    pub fn list_tunnels(&self) -> (r: Vec<&TunnelConfig>)
        ensures
            r@.len() == self.tunnels@.len(),
            forall|i: int| 0 <= i < r@.len() ==> *r@[i] == #[trigger] self.tunnels@[i].config,
    {
        let mut r: Vec<&TunnelConfig> = Vec::new();
        let mut i: usize = 0;
        while i < self.tunnels.len()
            invariant
                i <= self.tunnels@.len(),
                r@.len() == i,
                forall|k: int| 0 <= k < i ==> *r@[k] == #[trigger] self.tunnels@[k].config,
            decreases self.tunnels@.len() - i,
        {
            r.push(&self.tunnels[i].config);
            i += 1;
        }
        r
    }

    /// The first tunnel named `name`, whose process is to be asked whether
    /// it still runs.
    pub fn tunnel_mut(&mut self, name: &str) -> (r: Option<&mut ActiveTunnel<P>>)
        ensures
            match r {
                Some(t) => exists|i: int|
                    is_first_named(old(self).tunnels@, name@, i) && *t == old(self).tunnels@[i]
                        && final(self).tunnels@ == old(self).tunnels@.update(i, *final(t)),
                None => has_no_name(old(self).tunnels@, name@) && final(self).tunnels@ == old(
                    self,
                ).tunnels@,
            },
    {
        match self.position(name) {
            Some(pos) => Some(&mut self.tunnels[pos]),
            None => None,
        }
    }
}

/// The outcome of stopping a tunnel's process: the error with the text of
/// the failure, where it failed.
pub fn kill_outcome(kill: core::result::Result<(), String>) -> (r: Result<()>)
    ensures
        match kill {
            Ok(()) => r is Ok,
            Err(e) => r matches Err(LagideError::Tunnel(m)) && m@ == "Failed to stop tunnel: "@
                + e@,
        },
{
    match kill {
        Ok(()) => Ok(()),
        Err(e) => Err(LagideError::Tunnel(concat2("Failed to stop tunnel: ", e.as_str()))),
    }
}


/// Creating a tunnel under a name that no running tunnel has and then
/// stopping that name gives the tunnel back and leaves the list as it was.
pub proof fn law_stop_undoes_create<P>(t: Seq<ActiveTunnel<P>>, x: ActiveTunnel<P>)
    requires
        has_no_name(t, x.config.name@),
    ensures
        is_first_named(t.push(x), x.config.name@, t.len() as int),
        t.push(x)[t.len() as int] == x,
        t.push(x).remove(t.len() as int) == t,
{
    assert(forall|j: int| 0 <= j < t.len() ==> t.push(x)[j] == t[j]);
    assert(t.push(x).remove(t.len() as int) =~= t);
}

/// Every kind of tunnel is asked of `ssh` with its own option letter after
/// a dash, and the arguments always run `ssh` without a remote command, in
/// the background.
pub proof fn law_tunnel_option_names_kind(c: TunnelConfig)
    ensures
        forward_option(c).len() >= 3,
        forward_option(c)[0] == '-',
        forward_option(c)[1] == match c.tunnel_type {
            TunnelType::Local => 'L',
            TunnelType::Remote => 'R',
            TunnelType::Dynamic => 'D',
        },
        tunnel_ssh_args(c).len() == 6,
        tunnel_ssh_args(c)[0] == "-N"@,
        tunnel_ssh_args(c)[1] == "-f"@,
{
    reveal_strlit("-L ");
    reveal_strlit("-R ");
    reveal_strlit("-D ");
}

/// Whatever the kind of tunnel, `ssh` is asked to run without a remote
/// command (`-N`), in the background (`-f`), with the forwarding option, on
/// the SSH server's own port (`-p` and that port) and as `user@host` of the
/// SSH server; the ports being forwarded never stand where the server's
/// port goes.
pub proof fn law_tunnel_args_name_the_server(c: TunnelConfig)
    ensures
        tunnel_ssh_args(c).len() == 6,
        tunnel_ssh_args(c)[0] == "-N"@,
        tunnel_ssh_args(c)[1] == "-f"@,
        tunnel_ssh_args(c)[2] == forward_option(c),
        tunnel_ssh_args(c)[3] == "-p"@,
        tunnel_ssh_args(c)[4] == decimal(c.ssh_port as nat),
        tunnel_ssh_args(c)[5] == c.ssh_user@ + "@"@ + c.ssh_host@,
        c.tunnel_type == TunnelType::Dynamic ==> forward_option(c) == "-D "@ + decimal(c.local_port as nat),
        c.tunnel_type == TunnelType::Local ==> forward_option(c) == "-L "@ + decimal(c.local_port as nat)
            + ":"@ + c.remote_host@ + ":"@ + decimal(c.remote_port as nat),
        c.tunnel_type == TunnelType::Remote ==> forward_option(c) == "-R "@ + decimal(c.remote_port as nat)
            + ":"@ + c.remote_host@ + ":"@ + decimal(c.local_port as nat),
{
}

} // verus!
