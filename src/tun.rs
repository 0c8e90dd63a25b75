use crate::settings::{opt_view, SystemSettings, TunOptions};
use vstd::prelude::*;
use vstd::string::*;

verus! {

/// What the traffic-interception layer is started with: its options, the
/// server address that must bypass the tunnel, and the local SOCKS5 proxy
/// to send traffic to. `A` is an IP address.
pub struct InterceptionPlan<A> {
    pub options: TunOptions,
    pub bypass: A,
    /// The layer sets up routing itself.
    pub setup: bool,
    pub proxy_ip: A,
    pub proxy_port: u16,
    /// User name and password for the proxy, where either is set.
    pub credentials: Option<(String, String)>,
}

/// An optional text, or the empty text.
pub open spec fn or_empty(s: Option<Seq<char>>) -> Seq<char> {
    match s {
        Some(v) => v,
        None => Seq::empty(),
    }
}

fn text_or_empty(s: &Option<String>) -> (r: String)
    ensures
        r@ == or_empty(opt_view(*s)),
{
    match s {
        Some(v) => v.clone(),
        None => String::new(),
    }
}

/// Where both texts are empty there are no credentials.
pub open spec fn credentials_of(user: Seq<char>, password: Seq<char>) -> Option<(Seq<char>, Seq<char>)> {
    if user.len() == 0 && password.len() == 0 {
        None
    } else {
        Some((user, password))
    }
}

pub open spec fn credentials_view(c: Option<(String, String)>) -> Option<(Seq<char>, Seq<char>)> {
    match c {
        Some((u, p)) => Some((u@, p@)),
        None => None,
    }
}

/// Plans traffic interception for a session: only where it is enabled, the
/// server's address is known (`server_ip`) and the listen host is an IP
/// address (`listen_ip`); otherwise there is none, and that is no error.
pub fn cook_tun2proxy_config<A>(
    settings: &SystemSettings,
    server_ip: Option<A>,
    listen_ip: Option<A>,
) -> (r: Option<InterceptionPlan<A>>)
    ensures
        r is Some <==> (settings.tun2proxy_enable == Some(true) && server_ip is Some
            && listen_ip is Some),
        r matches Some(p) ==> {
            &&& Some(p.bypass) == server_ip
            &&& Some(p.proxy_ip) == listen_ip
            &&& p.setup
            &&& p.proxy_port == settings.listen_port
            &&& credentials_view(p.credentials) == credentials_of(
                or_empty(opt_view(settings.listen_user)),
                or_empty(opt_view(settings.listen_password)),
            )
            &&& match settings.tun2proxy {
                Some(t) => p.options == t,
                None => p.options.max_sessions == 200 && p.options.dns_addr@ == "8.8.8.8"@,
            }
        },
{
    let enabled = match settings.tun2proxy_enable {
        Some(b) => b,
        None => false,
    };
    if !enabled {
        return None;
    }
    let bypass = match server_ip {
        Some(ip) => ip,
        None => return None,
    };
    let options = match &settings.tun2proxy {
        Some(t) => t.duplicate(),
        None => TunOptions::default(),
    };
    let proxy_ip = match listen_ip {
        Some(ip) => ip,
        None => return None,
    };
    let user = text_or_empty(&settings.listen_user);
    let password = text_or_empty(&settings.listen_password);
    let credentials = if user.unicode_len() == 0 && password.unicode_len() == 0 {
        None
    } else {
        Some((user, password))
    };
    Some(
        InterceptionPlan {
            options,
            bypass,
            setup: true,
            proxy_ip,
            proxy_port: settings.listen_port,
            credentials,
        },
    )
}

} // verus!
