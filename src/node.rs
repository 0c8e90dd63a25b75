use crate::settings::SystemSettings;
use vstd::prelude::*;

verus! {

/// The request path (or paths) of the tunnel on the server.
#[derive(Clone, Debug)]
pub enum TunnelPath {
    Single(String),
    Multiple(Vec<String>),
}

/// The client side of a profile: the remote server and the local listener.
#[derive(Clone, Debug)]
pub struct ClientProfile {
    pub disable_tls: Option<bool>,
    pub client_id: Option<String>,
    pub server_host: String,
    pub server_port: u16,
    pub server_domain: Option<String>,
    /// A CA certificate, as a file path or as its content.
    pub cafile: Option<String>,
    pub dangerous_mode: Option<bool>,
    pub listen_host: String,
    pub listen_port: u16,
    pub listen_user: Option<String>,
    pub listen_password: Option<String>,
    pub pool_max_size: Option<usize>,
    pub cache_dns: bool,
}

/// One tunnel-client profile ("node").
#[derive(Clone, Debug)]
pub struct NodeProfile {
    pub remarks: Option<String>,
    pub method: Option<String>,
    pub password: Option<String>,
    pub tunnel_path: TunnelPath,
    pub client: Option<ClientProfile>,
}

/// The client record with the listener, pool and DNS fields of `s`.
pub open spec fn merged_client(s: SystemSettings, c: ClientProfile) -> ClientProfile {
    ClientProfile {
        listen_host: s.listen_host,
        listen_port: s.listen_port,
        listen_user: s.listen_user,
        listen_password: s.listen_password,
        pool_max_size: Some(s.pool_max_size),
        cache_dns: s.cache_dns,
        ..c
    }
}

/// The profile with the settings merged into its client record; a profile
/// without one stays as it is.
pub open spec fn merged(s: SystemSettings, n: NodeProfile) -> NodeProfile {
    match n.client {
        Some(c) => NodeProfile { client: Some(merged_client(s, c)), ..n },
        None => n,
    }
}

/// Writes the listener, pool size and DNS caching of `settings` into the
/// profile's client record.
pub fn merge_system_settings_to_node_config(settings: &SystemSettings, node: &mut NodeProfile)
    ensures
        *final(node) == merged(*settings, *old(node)),
{
    if let Some(client) = &mut node.client {
        client.listen_host = settings.listen_host.clone();
        client.listen_port = settings.listen_port;
        client.listen_user = crate::text::copy_opt_string(&settings.listen_user);
        client.listen_password = crate::text::copy_opt_string(&settings.listen_password);
        client.pool_max_size = Some(settings.pool_max_size);
        client.cache_dns = settings.cache_dns;
    }
}

/// Equal tunnel paths, the list of paths compared by its elements.
pub open spec fn path_eq(a: TunnelPath, b: TunnelPath) -> bool {
    match (a, b) {
        (TunnelPath::Single(x), TunnelPath::Single(y)) => x == y,
        (TunnelPath::Multiple(x), TunnelPath::Multiple(y)) => x@ == y@,
        _ => false,
    }
}

/// Equal profiles.
pub open spec fn node_eq(a: NodeProfile, b: NodeProfile) -> bool {
    &&& a.remarks == b.remarks
    &&& a.method == b.method
    &&& a.password == b.password
    &&& path_eq(a.tunnel_path, b.tunnel_path)
    &&& a.client == b.client
}

impl TunnelPath {
    /// An equal copy.
    pub fn duplicate(&self) -> (r: TunnelPath)
        ensures
            path_eq(r, *self),
    {
        match self {
            TunnelPath::Single(s) => TunnelPath::Single(s.clone()),
            TunnelPath::Multiple(v) => {
                let mut out: Vec<String> = Vec::new();
                let mut i: usize = 0;
                while i < v.len()
                    invariant
                        i <= v@.len(),
                        out@ == v@.subrange(0, i as int),
                    decreases v@.len() - i,
                {
                    out.push(v[i].clone());
                    proof {
                        assert(v@.subrange(0, i + 1) =~= v@.subrange(0, i as int).push(v@[i as int]));
                    }
                    i += 1;
                }
                assert(v@.subrange(0, v@.len() as int) =~= v@);
                TunnelPath::Multiple(out)
            },
        }
    }
}

impl ClientProfile {
    /// An equal copy.
    pub fn duplicate(&self) -> (r: ClientProfile)
        ensures
            r == *self,
    {
        ClientProfile {
            disable_tls: self.disable_tls,
            client_id: crate::text::copy_opt_string(&self.client_id),
            server_host: self.server_host.clone(),
            server_port: self.server_port,
            server_domain: crate::text::copy_opt_string(&self.server_domain),
            cafile: crate::text::copy_opt_string(&self.cafile),
            dangerous_mode: self.dangerous_mode,
            listen_host: self.listen_host.clone(),
            listen_port: self.listen_port,
            listen_user: crate::text::copy_opt_string(&self.listen_user),
            listen_password: crate::text::copy_opt_string(&self.listen_password),
            pool_max_size: self.pool_max_size,
            cache_dns: self.cache_dns,
        }
    }
}

impl NodeProfile {
    /// An equal copy.
    pub fn duplicate(&self) -> (r: NodeProfile)
        ensures
            node_eq(r, *self),
    {
        NodeProfile {
            remarks: crate::text::copy_opt_string(&self.remarks),
            method: crate::text::copy_opt_string(&self.method),
            password: crate::text::copy_opt_string(&self.password),
            tunnel_path: self.tunnel_path.duplicate(),
            client: match &self.client {
                Some(c) => Some(c.duplicate()),
                None => None,
            },
        }
    }
}

/// Merging the same settings a second time changes nothing.
pub proof fn lemma_merge_idempotent(s: SystemSettings, n: NodeProfile)
    ensures
        merged(s, merged(s, n)) == merged(s, n),
{
}

} // verus!
