use crate::level::LevelFilter;
use crate::node::{ClientProfile, NodeProfile, TunnelPath};
use crate::number::{parse_unsigned, parsed_unsigned};
use crate::settings::{opt_view, DnsStrategy, SystemSettings, TunOptions};
use vstd::prelude::*;
use vstd::string::*;

verus! {

/// The fields of the settings dialog as the user left them.
pub struct SettingsForm {
    pub listen_host: String,
    pub listen_port: String,
    pub listen_user: String,
    pub listen_password: String,
    pub pool_max_size: String,
    pub cache_dns: bool,
    pub tun2proxy_enable: bool,
    pub exit_on_fatal_error: bool,
    pub max_sessions: usize,
    pub remote_dns_address: String,
    /// Index into the DNS strategy choice.
    pub dns_strategy: i32,
    /// Indexes into the log level choices.
    pub log_level: i32,
    pub rustls_log_level: i32,
    pub tokio_tungstenite_log_level: i32,
    pub tungstenite_log_level: i32,
    pub ipstack_log_level: i32,
    pub overtls_log_level: i32,
    pub tun2proxy_log_level: i32,
}

/// The fields of the node dialog as the user left them.
pub struct NodeForm {
    pub remarks: String,
    pub tunnel_path: String,
    pub disable_tls: bool,
    pub client_id: String,
    pub server_host: String,
    pub server_port: String,
    pub server_domain: String,
    pub cafile: String,
    pub dangerous_mode: bool,
}

/// An input field's text, where it is not empty.
pub open spec fn non_empty_text(s: String) -> Option<String> {
    if s@.len() == 0 {
        None
    } else {
        Some(s)
    }
}

pub fn non_empty_or_none(s: String) -> (r: Option<String>)
    ensures
        r == non_empty_text(s),
{
    if s.unicode_len() == 0 {
        None
    } else {
        Some(s)
    }
}

/// The number in a field, or `fallback` where it holds none in range.
pub open spec fn number_or(s: Seq<char>, max: int, fallback: int) -> int {
    match parsed_unsigned(s, max) {
        Some(v) => v,
        None => fallback,
    }
}

/// The choices of the DNS strategy, in order.
pub fn tun2proxy_dns_strategy_options() -> (r: &'static str) {
    "virtual|over-tcp|direct"
}

/// The position of a DNS strategy among the choices.
pub fn tun2proxy_dns_strategy_index(dns: DnsStrategy) -> (r: usize)
    ensures
        dns_strategy_at(r as int) == Some(dns),
{
    match dns {
        DnsStrategy::Virtual => 0,
        DnsStrategy::OverTcp => 1,
        DnsStrategy::Direct => 2,
    }
}

pub open spec fn dns_strategy_at(i: int) -> Option<DnsStrategy> {
    if i == 0 {
        Some(DnsStrategy::Virtual)
    } else if i == 1 {
        Some(DnsStrategy::OverTcp)
    } else if i == 2 {
        Some(DnsStrategy::Direct)
    } else {
        None
    }
}

/// The DNS strategy at a position of the choices; `OverTcp` past the end.
pub fn tun2proxy_dns_strategy_by_index(index: usize) -> (r: DnsStrategy)
    ensures
        r == match dns_strategy_at(index as int) {
            Some(d) => d,
            None => DnsStrategy::OverTcp,
        },
{
    if index == 0 {
        DnsStrategy::Virtual
    } else if index == 1 {
        DnsStrategy::OverTcp
    } else if index == 2 {
        DnsStrategy::Direct
    } else {
        DnsStrategy::OverTcp
    }
}

/// The choices of a log level, in order.
pub fn log_level_options() -> (r: &'static str) {
    "Off|Error|Warn|Info|Debug|Trace"
}

/// The code of `c`, with an ASCII capital letter made small.
pub open spec fn ascii_lower(c: char) -> int {
    if 'A' <= c && c <= 'Z' {
        (c as int) + 32
    } else {
        c as int
    }
}

pub open spec fn eq_ignoring_ascii_case(a: Seq<char>, b: Seq<char>) -> bool {
    a.len() == b.len() && forall|i: int| 0 <= i < a.len() ==> ascii_lower(#[trigger] a[i]) == ascii_lower(b[i])
}

fn lower_char(c: char) -> (r: u32)
    ensures
        r as int == ascii_lower(c),
{
    if 'A' <= c && c <= 'Z' {
        (c as u32) + 32
    } else {
        c as u32
    }
}

/// Equality of two strings where ASCII letters match in either case.
pub fn eq_ignore_ascii_case(a: &str, b: &str) -> (r: bool)
    ensures
        r == eq_ignoring_ascii_case(a@, b@),
{
    let n = a.unicode_len();
    if n != b.unicode_len() {
        return false;
    }
    let mut i: usize = 0;
    while i < n
        invariant
            n == a@.len(),
            n == b@.len(),
            i <= n,
            forall|j: int| 0 <= j < i ==> ascii_lower(#[trigger] a@[j]) == ascii_lower(b@[j]),
        decreases n - i,
    {
        if lower_char(a.get_char(i)) != lower_char(b.get_char(i)) {
            return false;
        }
        i += 1;
    }
    true
}

/// The position of the first level whose name matches `level` in any
/// ASCII case, where there is one.
pub open spec fn level_position(level: Seq<char>) -> Option<int> {
    if eq_ignoring_ascii_case(LevelFilter::Off.name(), level) {
        Some(0)
    } else if eq_ignoring_ascii_case(LevelFilter::Error.name(), level) {
        Some(1)
    } else if eq_ignoring_ascii_case(LevelFilter::Warn.name(), level) {
        Some(2)
    } else if eq_ignoring_ascii_case(LevelFilter::Info.name(), level) {
        Some(3)
    } else if eq_ignoring_ascii_case(LevelFilter::Debug.name(), level) {
        Some(4)
    } else if eq_ignoring_ascii_case(LevelFilter::Trace.name(), level) {
        Some(5)
    } else {
        None
    }
}

/// The position of a level name among the choices; that of `Info` where the
/// name is none of them.
pub fn log_level_index(level: &str) -> (r: i32)
    ensures
        r == match level_position(level@) {
            Some(i) => i,
            None => 3,
        },
{
    if eq_ignore_ascii_case(LevelFilter::Off.as_str(), level) {
        0
    } else if eq_ignore_ascii_case(LevelFilter::Error.as_str(), level) {
        1
    } else if eq_ignore_ascii_case(LevelFilter::Warn.as_str(), level) {
        2
    } else if eq_ignore_ascii_case(LevelFilter::Info.as_str(), level) {
        3
    } else if eq_ignore_ascii_case(LevelFilter::Debug.as_str(), level) {
        4
    } else if eq_ignore_ascii_case(LevelFilter::Trace.as_str(), level) {
        5
    } else {
        3
    }
}

/// The name of the level chosen at `index`; "Info" past the end.
pub open spec fn level_name_at(index: int) -> Seq<char> {
    match LevelFilter::at_index(index) {
        Some(f) => f.name(),
        None => "Info"@,
    }
}

pub fn log_level_by_index(index: i32) -> (r: String)
    ensures
        r@ == level_name_at(index as int),
{
    let f = if index == 0 {
        LevelFilter::Off
    } else if index == 1 {
        LevelFilter::Error
    } else if index == 2 {
        LevelFilter::Warn
    } else if index == 3 {
        LevelFilter::Info
    } else if index == 4 {
        LevelFilter::Debug
    } else if index == 5 {
        LevelFilter::Trace
    } else {
        return String::from_str("Info");
    };
    String::from_str(f.as_str())
}

/// The DNS strategy chosen at `index`; `OverTcp` past the end.
pub open spec fn dns_choice(index: int) -> DnsStrategy {
    match dns_strategy_at(index) {
        Some(d) => d,
        None => DnsStrategy::OverTcp,
    }
}

/// The settings that a submitted settings dialog stands for: a port that is
/// no number in range gives 0, a pool size 8; empty credentials are unset.
pub fn settings_from_form(form: SettingsForm) -> (r: SystemSettings)
    ensures
        r.listen_host == form.listen_host,
        r.listen_port as int == number_or(form.listen_port@, 0xffff, 0),
        r.listen_user == non_empty_text(form.listen_user),
        r.listen_password == non_empty_text(form.listen_password),
        r.pool_max_size as int == number_or(form.pool_max_size@, usize::MAX as int, 8),
        r.cache_dns == form.cache_dns,
        r.tun2proxy_enable == Some(form.tun2proxy_enable),
        r.tun2proxy matches Some(t) && t.exit_on_fatal_error == form.exit_on_fatal_error
            && t.max_sessions == form.max_sessions && t.dns == dns_choice(form.dns_strategy as int)
            && t.dns_addr == form.remote_dns_address,
        opt_view(r.log_level) == Some(level_name_at(form.log_level as int)),
        opt_view(r.rustls_log_level) == Some(level_name_at(form.rustls_log_level as int)),
        opt_view(r.tokio_tungstenite_log_level) == Some(
            level_name_at(form.tokio_tungstenite_log_level as int),
        ),
        opt_view(r.tungstenite_log_level) == Some(level_name_at(form.tungstenite_log_level as int)),
        opt_view(r.ipstack_log_level) == Some(level_name_at(form.ipstack_log_level as int)),
        opt_view(r.overtls_log_level) == Some(level_name_at(form.overtls_log_level as int)),
        opt_view(r.tun2proxy_log_level) == Some(level_name_at(form.tun2proxy_log_level as int)),
{
    let listen_port = match parse_unsigned(form.listen_port.as_str(), 0xffff) {
        Some(v) => v as u16,
        None => 0,
    };
    let pool_max_size = match parse_unsigned(form.pool_max_size.as_str(), usize::MAX as u64) {
        Some(v) => v as usize,
        None => 8,
    };
    let dns = if form.dns_strategy < 0 {
        DnsStrategy::OverTcp
    } else {
        tun2proxy_dns_strategy_by_index(form.dns_strategy as usize)
    };
    SystemSettings {
        listen_host: form.listen_host,
        listen_port,
        listen_user: non_empty_or_none(form.listen_user),
        listen_password: non_empty_or_none(form.listen_password),
        pool_max_size,
        cache_dns: form.cache_dns,
        tun2proxy_enable: Some(form.tun2proxy_enable),
        tun2proxy: Some(
            TunOptions {
                exit_on_fatal_error: form.exit_on_fatal_error,
                max_sessions: form.max_sessions,
                dns,
                dns_addr: form.remote_dns_address,
            },
        ),
        log_level: Some(log_level_by_index(form.log_level)),
        rustls_log_level: Some(log_level_by_index(form.rustls_log_level)),
        tokio_tungstenite_log_level: Some(log_level_by_index(form.tokio_tungstenite_log_level)),
        tungstenite_log_level: Some(log_level_by_index(form.tungstenite_log_level)),
        ipstack_log_level: Some(log_level_by_index(form.ipstack_log_level)),
        overtls_log_level: Some(log_level_by_index(form.overtls_log_level)),
        tun2proxy_log_level: Some(log_level_by_index(form.tun2proxy_log_level)),
    }
}

/// The port of a new client record's local listener.
pub const DEFAULT_LISTEN_PORT: u16 = 1080;

/// The profile that a submitted node dialog stands for: a port that is no
/// number in range gives 443, empty texts are unset, and the local listener
/// is left at 127.0.0.1:1080 until settings are merged in.
pub fn node_from_form(form: NodeForm) -> (r: NodeProfile)
    ensures
        r.remarks == non_empty_text(form.remarks),
        r.method.is_none(),
        r.password.is_none(),
        r.tunnel_path == TunnelPath::Single(form.tunnel_path),
        r.client matches Some(c) && c.disable_tls == Some(form.disable_tls)
            && c.client_id == non_empty_text(form.client_id) && c.server_host
            == form.server_host && c.server_port as int == number_or(
            form.server_port@,
            0xffff,
            443,
        ) && c.server_domain == non_empty_text(form.server_domain) && c.cafile
            == non_empty_text(form.cafile) && c.dangerous_mode == Some(form.dangerous_mode)
            && c.listen_host@ == "127.0.0.1"@ && c.listen_port == DEFAULT_LISTEN_PORT
            && c.listen_user.is_none() && c.listen_password.is_none() && c.pool_max_size.is_none()
            && !c.cache_dns,
{
    let server_port = match parse_unsigned(form.server_port.as_str(), 0xffff) {
        Some(v) => v as u16,
        None => 443,
    };
    let client = ClientProfile {
        disable_tls: Some(form.disable_tls),
        client_id: non_empty_or_none(form.client_id),
        server_host: form.server_host,
        server_port,
        server_domain: non_empty_or_none(form.server_domain),
        cafile: non_empty_or_none(form.cafile),
        dangerous_mode: Some(form.dangerous_mode),
        listen_host: String::from_str("127.0.0.1"),
        listen_port: DEFAULT_LISTEN_PORT,
        listen_user: None,
        listen_password: None,
        pool_max_size: None,
        cache_dns: false,
    };
    NodeProfile {
        remarks: non_empty_or_none(form.remarks),
        method: None,
        password: None,
        tunnel_path: TunnelPath::Single(form.tunnel_path),
        client: Some(client),
    }
}

/// The title of the node dialog.
pub open spec fn node_dialog_title_text(node: Option<NodeProfile>) -> Seq<char> {
    match node {
        None => "New Node"@,
        Some(n) => match n.remarks {
            Some(s) => if s@.len() > 0 {
                "Node details of '"@ + s@ + "'"@
            } else {
                "Node without remarks"@
            },
            None => "Node without remarks"@,
        },
    }
}

pub fn node_dialog_title(node: Option<&NodeProfile>) -> (r: String)
    ensures
        r@ == node_dialog_title_text(
            match node {
                Some(n) => Some(*n),
                None => None,
            },
        ),
{
    match node {
        None => String::from_str("New Node"),
        Some(n) => match &n.remarks {
            Some(s) => if s.unicode_len() > 0 {
                let mut t = String::from_str("Node details of '");
                t.append(s.as_str());
                t.append("'");
                t
            } else {
                String::from_str("Node without remarks")
            },
            None => String::from_str("Node without remarks"),
        },
    }
}

/// The title of the QR code window of a node with the given remarks.
pub open spec fn qr_title_text(remarks: Option<Seq<char>>) -> Seq<char> {
    match remarks {
        Some(s) => if s.len() > 0 {
            "Node QR Code - '"@ + s + "'"@
        } else {
            "Node QR Code"@
        },
        None => "Node QR Code"@,
    }
}

pub fn qr_dialog_title(remarks: &Option<String>) -> (r: String)
    ensures
        r@ == qr_title_text(opt_view(*remarks)),
{
    match remarks {
        Some(s) => if s.unicode_len() > 0 {
            let mut t = String::from_str("Node QR Code - '");
            t.append(s.as_str());
            t.append("'");
            t
        } else {
            String::from_str("Node QR Code")
        },
        None => String::from_str("Node QR Code"),
    }
}

} // verus!
