use crate::level::{filter_named, string_to_level_filter, LevelFilter};
use crate::logger::{lookup, Logger};
use crate::text::lower_of;
use vstd::prelude::*;
use vstd::string::*;

verus! {

/// How the traffic-interception layer handles DNS.
#[derive(Clone, Copy, Debug, PartialEq, Eq, Structural)]
pub enum DnsStrategy {
    /// A virtual DNS server answers with fake addresses.
    Virtual,
    /// Queries go over TCP to the DNS server.
    OverTcp,
    /// DNS is not handled; the DNS server is bypassed.
    Direct,
}

/// The interception settings that the settings dialog edits.
#[derive(Clone, Debug)]
pub struct TunOptions {
    pub exit_on_fatal_error: bool,
    pub max_sessions: usize,
    pub dns: DnsStrategy,
    /// The remote DNS server's address, as text.
    pub dns_addr: String,
}

/// Settings that hold for every node: the local listener, the connection
/// pool, DNS caching, traffic interception, and log verbosity by module.
#[derive(Clone, Debug)]
pub struct SystemSettings {
    pub listen_host: String,
    pub listen_port: u16,
    pub listen_user: Option<String>,
    pub listen_password: Option<String>,
    pub pool_max_size: usize,
    pub cache_dns: bool,
    pub tun2proxy_enable: Option<bool>,
    pub tun2proxy: Option<TunOptions>,
    /// Global log level: "Error", "Warn", "Info", "Debug" or "Trace".
    pub log_level: Option<String>,
    pub rustls_log_level: Option<String>,
    pub tokio_tungstenite_log_level: Option<String>,
    pub tungstenite_log_level: Option<String>,
    pub ipstack_log_level: Option<String>,
    pub overtls_log_level: Option<String>,
    pub tun2proxy_log_level: Option<String>,
}

pub open spec fn opt_view(s: Option<String>) -> Option<Seq<char>> {
    match s {
        Some(v) => Some(v@),
        None => None,
    }
}

/// The filter that an optional level setting names, if it names one.
pub open spec fn setting_filter(s: Option<String>) -> Option<LevelFilter> {
    match s {
        Some(v) => filter_named(lower_of(v@)),
        None => None,
    }
}

/// `f` where `m` is `name` and `f` is set, else `rest`.
pub open spec fn pick(
    m: Seq<char>,
    name: Seq<char>,
    f: Option<LevelFilter>,
    rest: Option<LevelFilter>,
) -> Option<LevelFilter> {
    if m == name && f.is_some() {
        f
    } else {
        rest
    }
}

impl SystemSettings {
    /// The module filter that `create_logger` gives to root module `m`.
    pub open spec fn module_filter(&self, m: Seq<char>) -> Option<LevelFilter> {
        pick(m, "tun2proxy"@, setting_filter(self.tun2proxy_log_level),
        pick(m, "overtls"@, setting_filter(self.overtls_log_level),
        pick(m, "ipstack"@, setting_filter(self.ipstack_log_level),
        pick(m, "tungstenite"@, setting_filter(self.tungstenite_log_level),
        pick(m, "tokio_tungstenite"@, setting_filter(self.tokio_tungstenite_log_level),
        pick(m, "rustls"@, setting_filter(self.rustls_log_level), None))))))
    }

    /// The default filter of the logger: the global level, or `Debug` where
    /// it is unset or names no level.
    pub open spec fn default_filter(&self) -> LevelFilter {
        match setting_filter(self.log_level) {
            Some(f) => f,
            None => LevelFilter::Debug,
        }
    }

    /// The log settings of both are the same.
    pub open spec fn same_log_levels(&self, other: &SystemSettings) -> bool {
        &&& opt_view(self.rustls_log_level) == opt_view(other.rustls_log_level)
        &&& opt_view(self.tokio_tungstenite_log_level) == opt_view(other.tokio_tungstenite_log_level)
        &&& opt_view(self.tungstenite_log_level) == opt_view(other.tungstenite_log_level)
        &&& opt_view(self.ipstack_log_level) == opt_view(other.ipstack_log_level)
        &&& opt_view(self.overtls_log_level) == opt_view(other.overtls_log_level)
        &&& opt_view(self.tun2proxy_log_level) == opt_view(other.tun2proxy_log_level)
        &&& opt_view(self.log_level) == opt_view(other.log_level)
    }

    /// A logger whose module filters and default level follow these settings.
    pub fn create_logger(&self) -> (r: Logger)
        ensures
            r.default_level == self.default_filter(),
            forall|m: Seq<char>| #[trigger] lookup(r.entries(), m) == self.module_filter(m),
    {
        let default_level = match &self.log_level {
            Some(s) => match string_to_level_filter(s.as_str()) {
                Some(f) => f,
                None => LevelFilter::Debug,
            },
            None => LevelFilter::Debug,
        };
        let mut logger = Logger::new(default_level);
        add_setting(&mut logger, "rustls", &self.rustls_log_level);
        add_setting(&mut logger, "tokio_tungstenite", &self.tokio_tungstenite_log_level);
        add_setting(&mut logger, "tungstenite", &self.tungstenite_log_level);
        add_setting(&mut logger, "ipstack", &self.ipstack_log_level);
        add_setting(&mut logger, "overtls", &self.overtls_log_level);
        add_setting(&mut logger, "tun2proxy", &self.tun2proxy_log_level);
        logger
    }

    /// Whether the log settings of both are the same.
    pub fn is_log_level_equal(&self, other: &SystemSettings) -> (r: bool)
        ensures
            r == self.same_log_levels(other),
    {
        opt_string_eq(&self.rustls_log_level, &other.rustls_log_level)
            && opt_string_eq(&self.tokio_tungstenite_log_level, &other.tokio_tungstenite_log_level)
            && opt_string_eq(&self.tungstenite_log_level, &other.tungstenite_log_level)
            && opt_string_eq(&self.ipstack_log_level, &other.ipstack_log_level)
            && opt_string_eq(&self.overtls_log_level, &other.overtls_log_level)
            && opt_string_eq(&self.tun2proxy_log_level, &other.tun2proxy_log_level)
            && opt_string_eq(&self.log_level, &other.log_level)
    }
}

/// Equality of two optional strings by their characters.
pub fn opt_string_eq(a: &Option<String>, b: &Option<String>) -> (r: bool)
    ensures
        r == (opt_view(*a) == opt_view(*b)),
{
    match (a, b) {
        (Some(x), Some(y)) => crate::text::str_eq(x.as_str(), y.as_str()),
        (None, None) => true,
        _ => false,
    }
}

/// Adds a filter for `module` where `setting` names a level.
fn add_setting(logger: &mut Logger, module: &str, setting: &Option<String>)
    ensures
        final(logger).default_level == old(logger).default_level,
        forall|m: Seq<char>|
            #![trigger lookup(final(logger).entries(), m)]
            lookup(final(logger).entries(), m) == pick(
                m,
                module@,
                setting_filter(*setting),
                lookup(old(logger).entries(), m),
            ),
{
    if let Some(s) = setting {
        if let Some(level) = string_to_level_filter(s.as_str()) {
            logger.add_module_filter(String::from_str(module), level);
        }
    }
}

impl TunOptions {
    /// An equal copy.
    pub fn duplicate(&self) -> (r: TunOptions)
        ensures
            r == *self,
    {
        TunOptions {
            exit_on_fatal_error: self.exit_on_fatal_error,
            max_sessions: self.max_sessions,
            dns: self.dns,
            dns_addr: self.dns_addr.clone(),
        }
    }
}

impl Default for TunOptions {
    /// The interception layer's own defaults.
    fn default() -> (r: TunOptions)
        ensures
            !r.exit_on_fatal_error,
            r.max_sessions == 200,
            r.dns == DnsStrategy::Direct,
            r.dns_addr@ == "8.8.8.8"@,
    {
        TunOptions {
            exit_on_fatal_error: false,
            max_sessions: 200,
            dns: DnsStrategy::Direct,
            dns_addr: String::from_str("8.8.8.8"),
        }
    }
}

impl Default for SystemSettings {
    fn default() -> (r: SystemSettings)
        ensures
            r.listen_host@ == "127.0.0.1"@,
            r.listen_port == 5080,
            r.listen_user.is_none(),
            r.listen_password.is_none(),
            r.pool_max_size == 100,
            !r.cache_dns,
            r.tun2proxy_enable == Some(true),
            r.tun2proxy.is_none(),
            opt_view(r.log_level) == Some("Debug"@),
            opt_view(r.rustls_log_level) == Some("Debug"@),
            opt_view(r.tokio_tungstenite_log_level) == Some("Debug"@),
            opt_view(r.tungstenite_log_level) == Some("Debug"@),
            opt_view(r.ipstack_log_level) == Some("Debug"@),
            opt_view(r.overtls_log_level) == Some("Debug"@),
            opt_view(r.tun2proxy_log_level) == Some("Debug"@),
    {
        SystemSettings {
            listen_host: String::from_str("127.0.0.1"),
            listen_port: 5080,
            listen_user: None,
            listen_password: None,
            pool_max_size: 100,
            cache_dns: false,
            tun2proxy_enable: Some(true),
            tun2proxy: None,
            log_level: Some(String::from_str("Debug")),
            rustls_log_level: Some(String::from_str("Debug")),
            tokio_tungstenite_log_level: Some(String::from_str("Debug")),
            tungstenite_log_level: Some(String::from_str("Debug")),
            ipstack_log_level: Some(String::from_str("Debug")),
            overtls_log_level: Some(String::from_str("Debug")),
            tun2proxy_log_level: Some(String::from_str("Debug")),
        }
    }
}

} // verus!
