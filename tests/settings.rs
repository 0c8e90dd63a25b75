use overtls_manager::forms::{
    eq_ignore_ascii_case, log_level_by_index, log_level_index, log_level_options, node_from_form,
    settings_from_form, tun2proxy_dns_strategy_by_index, tun2proxy_dns_strategy_index,
    tun2proxy_dns_strategy_options, NodeForm, SettingsForm,
};
use overtls_manager::level::LevelFilter;
use overtls_manager::node::{merge_system_settings_to_node_config, NodeProfile, TunnelPath};
use overtls_manager::number::parse_unsigned;
use overtls_manager::settings::{DnsStrategy, SystemSettings, TunOptions};
use overtls_manager::tun::cook_tun2proxy_config;

fn form(host: &str, port: &str) -> NodeForm {
    NodeForm {
        remarks: "A".to_string(),
        tunnel_path: "/secret/".to_string(),
        disable_tls: false,
        client_id: String::new(),
        server_host: host.to_string(),
        server_port: port.to_string(),
        server_domain: String::new(),
        cafile: String::new(),
        dangerous_mode: false,
    }
}

fn settings_form() -> SettingsForm {
    SettingsForm {
        listen_host: "0.0.0.0".to_string(),
        listen_port: "1081".to_string(),
        listen_user: "".to_string(),
        listen_password: "pw".to_string(),
        pool_max_size: "many".to_string(),
        cache_dns: true,
        tun2proxy_enable: false,
        exit_on_fatal_error: true,
        max_sessions: 120,
        remote_dns_address: "1.1.1.1".to_string(),
        dns_strategy: 0,
        log_level: 2,
        rustls_log_level: 0,
        tokio_tungstenite_log_level: 5,
        tungstenite_log_level: 9,
        ipstack_log_level: -1,
        overtls_log_level: 4,
        tun2proxy_log_level: 1,
    }
}

fn merged_example() -> (SystemSettings, NodeProfile) {
    let mut settings = SystemSettings::default();
    settings.listen_user = Some("u".to_string());
    settings.pool_max_size = 7;
    settings.cache_dns = true;
    (settings, node_from_form(form("example.com", "443")))
}

#[test]
fn default_settings() {
    let s = SystemSettings::default();
    assert_eq!(s.listen_host, "127.0.0.1");
    assert_eq!(s.listen_port, 5080);
    assert_eq!(s.pool_max_size, 100);
    assert!(!s.cache_dns);
    assert_eq!(s.tun2proxy_enable, Some(true));
    assert!(s.tun2proxy.is_none());
    assert_eq!(s.log_level.as_deref(), Some("Debug"));
    assert_eq!(s.tun2proxy_log_level.as_deref(), Some("Debug"));
}

#[test]
fn create_logger_follows_settings() {
    let mut s = SystemSettings::default();
    s.log_level = Some("warn".to_string());
    s.rustls_log_level = Some("Error".to_string());
    s.ipstack_log_level = Some("nonsense".to_string());
    s.overtls_log_level = None;
    let logger = s.create_logger();
    assert_eq!(logger.default_level, LevelFilter::Warn);
    assert_eq!(logger.level_for("rustls"), LevelFilter::Error);
    assert_eq!(logger.level_for("tungstenite"), LevelFilter::Debug);
    assert_eq!(logger.level_for("ipstack"), LevelFilter::Warn);
    assert_eq!(logger.level_for("overtls"), LevelFilter::Warn);
    assert_eq!(logger.module_filters.len(), 4);
}

#[test]
fn create_logger_default_level_falls_back_to_debug() {
    let mut s = SystemSettings::default();
    s.log_level = Some("loud".to_string());
    assert_eq!(s.create_logger().default_level, LevelFilter::Debug);
    s.log_level = None;
    assert_eq!(s.create_logger().default_level, LevelFilter::Debug);
}

#[test]
fn log_level_equality_ignores_other_fields() {
    let a = SystemSettings::default();
    let mut b = SystemSettings::default();
    b.listen_port = 1;
    assert!(a.is_log_level_equal(&b));
    b.tungstenite_log_level = Some("Info".to_string());
    assert!(!a.is_log_level_equal(&b));
    b.tungstenite_log_level = a.tungstenite_log_level.clone();
    b.log_level = None;
    assert!(!a.is_log_level_equal(&b));
}

#[test]
fn merge_writes_listener_into_client() {
    let (settings, mut node) = merged_example();
    merge_system_settings_to_node_config(&settings, &mut node);
    let c = node.client.as_ref().unwrap();
    assert_eq!(c.listen_host, "127.0.0.1");
    assert_eq!(c.listen_port, 5080);
    assert_eq!(c.listen_user.as_deref(), Some("u"));
    assert_eq!(c.listen_password, None);
    assert_eq!(c.pool_max_size, Some(7));
    assert!(c.cache_dns);
    assert_eq!(c.server_host, "example.com");
    assert_eq!(node.remarks.as_deref(), Some("A"));
}

#[test]
fn merge_twice_equals_merge_once() {
    let (settings, mut once) = merged_example();
    merge_system_settings_to_node_config(&settings, &mut once);
    let mut twice = once.clone();
    merge_system_settings_to_node_config(&settings, &mut twice);
    assert_eq!(format!("{once:?}"), format!("{twice:?}"));
}

#[test]
fn merge_leaves_profile_without_client() {
    let settings = SystemSettings::default();
    let mut node = NodeProfile {
        remarks: None,
        method: None,
        password: None,
        tunnel_path: TunnelPath::Multiple(vec!["/a/".to_string()]),
        client: None,
    };
    merge_system_settings_to_node_config(&settings, &mut node);
    assert!(node.client.is_none());
}

#[test]
fn unsigned_numbers() {
    assert_eq!(parse_unsigned("443", 65535), Some(443));
    assert_eq!(parse_unsigned("+8", 65535), Some(8));
    assert_eq!(parse_unsigned("0", 65535), Some(0));
    assert_eq!(parse_unsigned("65535", 65535), Some(65535));
    assert_eq!(parse_unsigned("65536", 65535), None);
    assert_eq!(parse_unsigned("", 65535), None);
    assert_eq!(parse_unsigned("+", 65535), None);
    assert_eq!(parse_unsigned("-1", 65535), None);
    assert_eq!(parse_unsigned(" 1", 65535), None);
    assert_eq!(parse_unsigned("12a", 65535), None);
    assert_eq!(parse_unsigned("18446744073709551615", u64::MAX), Some(u64::MAX));
    assert_eq!(parse_unsigned("18446744073709551616", u64::MAX), None);
    for s in ["7", "+12", "999999", "x", "", "+", "65536"] {
        assert_eq!(parse_unsigned(s, 65535), s.parse::<u16>().ok().map(u64::from));
    }
}

#[test]
fn settings_dialog_submission() {
    let s = settings_from_form(settings_form());
    assert_eq!(s.listen_host, "0.0.0.0");
    assert_eq!(s.listen_port, 1081);
    assert_eq!(s.listen_user, None);
    assert_eq!(s.listen_password.as_deref(), Some("pw"));
    assert_eq!(s.pool_max_size, 8);
    assert!(s.cache_dns);
    assert_eq!(s.tun2proxy_enable, Some(false));
    let t = s.tun2proxy.as_ref().unwrap();
    assert!(t.exit_on_fatal_error);
    assert_eq!(t.max_sessions, 120);
    assert_eq!(t.dns, DnsStrategy::Virtual);
    assert_eq!(t.dns_addr, "1.1.1.1");
    assert_eq!(s.log_level.as_deref(), Some("WARN"));
    assert_eq!(s.rustls_log_level.as_deref(), Some("OFF"));
    assert_eq!(s.tokio_tungstenite_log_level.as_deref(), Some("TRACE"));
    assert_eq!(s.tungstenite_log_level.as_deref(), Some("Info"));
    assert_eq!(s.ipstack_log_level.as_deref(), Some("Info"));
    assert_eq!(s.overtls_log_level.as_deref(), Some("DEBUG"));
    assert_eq!(s.tun2proxy_log_level.as_deref(), Some("ERROR"));
}

#[test]
fn settings_dialog_bad_port_gives_zero() {
    let mut f = settings_form();
    f.listen_port = "70000".to_string();
    f.dns_strategy = 7;
    let s = settings_from_form(f);
    assert_eq!(s.listen_port, 0);
    assert_eq!(s.tun2proxy.unwrap().dns, DnsStrategy::OverTcp);
}

#[test]
fn node_dialog_submission() {
    let n = node_from_form(form("example.com", "8443"));
    assert_eq!(n.remarks.as_deref(), Some("A"));
    let c = n.client.unwrap();
    assert_eq!(c.server_port, 8443);
    assert_eq!(c.server_domain, None);
    assert_eq!(c.dangerous_mode, Some(false));
    assert_eq!(c.disable_tls, Some(false));
    let bad = node_from_form(form("h", "port"));
    assert_eq!(bad.client.unwrap().server_port, 443);
    let mut empty = form("h", "1");
    empty.remarks = String::new();
    assert_eq!(node_from_form(empty).remarks, None);
}

#[test]
fn level_choices() {
    assert_eq!(log_level_options(), "Off|Error|Warn|Info|Debug|Trace");
    assert_eq!(log_level_index("debug"), 4);
    assert_eq!(log_level_index("OFF"), 0);
    assert_eq!(log_level_index("Trace"), 5);
    assert_eq!(log_level_index("unknown"), 3);
    assert_eq!(log_level_by_index(1), "ERROR");
    assert_eq!(log_level_by_index(6), "Info");
    assert_eq!(log_level_by_index(-2), "Info");
    assert!(eq_ignore_ascii_case("WaRn", "warn"));
    assert!(!eq_ignore_ascii_case("warn", "warns"));
}

#[test]
fn dns_choices() {
    assert_eq!(tun2proxy_dns_strategy_options(), "virtual|over-tcp|direct");
    assert_eq!(tun2proxy_dns_strategy_index(DnsStrategy::Virtual), 0);
    assert_eq!(tun2proxy_dns_strategy_index(DnsStrategy::Direct), 2);
    assert_eq!(tun2proxy_dns_strategy_by_index(1), DnsStrategy::OverTcp);
    assert_eq!(tun2proxy_dns_strategy_by_index(2), DnsStrategy::Direct);
    assert_eq!(tun2proxy_dns_strategy_by_index(3), DnsStrategy::OverTcp);
}

#[test]
fn interception_plan_needs_all_three_conditions() {
    let mut s = SystemSettings::default();
    assert!(cook_tun2proxy_config(&s, Some(1u8), Some(2u8)).is_some());
    assert!(cook_tun2proxy_config(&s, None, Some(2u8)).is_none());
    assert!(cook_tun2proxy_config(&s, Some(1u8), None).is_none());
    s.tun2proxy_enable = None;
    assert!(cook_tun2proxy_config(&s, Some(1u8), Some(2u8)).is_none());
    s.tun2proxy_enable = Some(false);
    assert!(cook_tun2proxy_config(&s, Some(1u8), Some(2u8)).is_none());
}

#[test]
fn interception_plan_contents() {
    let mut s = SystemSettings::default();
    let p = cook_tun2proxy_config(&s, Some("10.0.0.1"), Some("127.0.0.1")).unwrap();
    assert_eq!(p.bypass, "10.0.0.1");
    assert_eq!(p.proxy_ip, "127.0.0.1");
    assert_eq!(p.proxy_port, 5080);
    assert!(p.setup);
    assert!(p.credentials.is_none());
    assert_eq!(p.options.max_sessions, 200);
    assert_eq!(p.options.dns, DnsStrategy::Direct);
    assert_eq!(p.options.dns_addr, "8.8.8.8");
    s.listen_user = Some("user".to_string());
    s.tun2proxy = Some(TunOptions {
        exit_on_fatal_error: true,
        max_sessions: 60,
        dns: DnsStrategy::Virtual,
        dns_addr: "9.9.9.9".to_string(),
    });
    let p = cook_tun2proxy_config(&s, Some(1), Some(2)).unwrap();
    assert_eq!(p.credentials, Some(("user".to_string(), String::new())));
    assert_eq!(p.options.max_sessions, 60);
    assert_eq!(p.options.dns_addr, "9.9.9.9");
}
