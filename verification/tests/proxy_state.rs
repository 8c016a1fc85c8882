use singbox_session::settings::AppSettings;
use singbox_session::subscriptions::default_true;
use singbox_session::system_proxy::{
    disable_system_proxy, enable_pac_proxy, enable_system_proxy, join_hosts, local_bypass_list,
    session_proxy_state, ProxyMode,
};

#[test]
fn enable_writes_the_static_form_and_clears_the_script() {
    let bypass = vec!["localhost".to_string(), "10.*".to_string()];
    let state = enable_system_proxy("127.0.0.1", 2080, &bypass);
    assert!(state.enabled);
    assert_eq!(state.mode, ProxyMode::Static);
    assert_eq!(state.host, "127.0.0.1");
    assert_eq!(state.port, 2080);
    assert_eq!(state.bypass, bypass);
    assert_eq!(state.pac_url, "");
}

#[test]
fn enable_pac_writes_the_script_and_clears_the_static_form() {
    let state = enable_pac_proxy("http://127.0.0.1:2080/proxy.pac");
    assert!(state.enabled);
    assert_eq!(state.mode, ProxyMode::Pac);
    assert_eq!(state.pac_url, "http://127.0.0.1:2080/proxy.pac");
    assert_eq!(state.host, "");
    assert_eq!(state.port, 0);
    assert!(state.bypass.is_empty());
}

#[test]
fn disable_clears_every_field() {
    let state = disable_system_proxy();
    assert!(!state.enabled);
    assert_eq!(state.mode, ProxyMode::Static);
    assert_eq!(state.host, "");
    assert_eq!(state.port, 0);
    assert!(state.bypass.is_empty());
    assert_eq!(state.pac_url, "");
}

#[test]
fn session_proxy_points_at_the_listener() {
    let state = session_proxy_state(7890);
    assert!(state.enabled);
    assert_eq!(state.mode, ProxyMode::Static);
    assert_eq!(state.host, "127.0.0.1");
    assert_eq!(state.port, 7890);
    assert_eq!(state.bypass, local_bypass_list());
}

#[test]
fn bypass_line_of_the_private_ranges() {
    let line = join_hosts(&local_bypass_list(), ";");
    assert_eq!(
        line,
        "localhost;127.*;10.*;172.16.*;172.17.*;172.18.*;172.19.*;172.20.*;172.21.*;172.22.*;172.23.*;172.24.*;172.25.*;172.26.*;172.27.*;172.28.*;172.29.*;172.30.*;172.31.*;192.168.*"
    );
}

#[test]
fn join_hosts_edge_cases() {
    assert_eq!(join_hosts(&[], ","), "");
    assert_eq!(join_hosts(&["a".to_string()], ","), "a");
    assert_eq!(join_hosts(&["a".to_string(), "b".to_string()], ", "), "a, b");
    assert_eq!(join_hosts(&["".to_string(), "".to_string(), "c".to_string()], ";"), ";;c");
    assert_eq!(join_hosts(&["a".to_string(), "b".to_string()], ""), "ab");
}

#[test]
fn default_settings() {
    let settings = AppSettings::default();
    assert_eq!(settings.mixed_port, 2080);
    assert_eq!(settings.whitelist, vec!["localhost", "127.0.0.1", "baidu.com", "qq.com"]);
    assert!(!settings.allow_lan);
    let copy = settings.clone();
    assert_eq!(copy.whitelist, settings.whitelist);
}

#[test]
fn subscriptions_are_enabled_by_default() {
    assert!(default_true());
}
