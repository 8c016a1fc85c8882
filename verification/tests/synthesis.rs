use singbox_session::config::{DnsRule, Outbound, RouteRule, SingBoxConfig};
use singbox_session::subscriptions::Node;
use singbox_session::synthesis::{convert_node_to_outbound, generate_singbox_config, RoutingMode};

fn text(s: &str) -> String {
    s.to_string()
}

fn some(s: &str) -> Option<String> {
    Some(s.to_string())
}

fn trojan_node() -> Node {
    Node {
        id: text("n-1"),
        protocol: text("trojan"),
        name: text("relay"),
        address: text("relay.example.org"),
        port: 443,
        uuid: None,
        password: some("secret"),
        cipher: None,
        sni: some("cdn.example.org"),
        allow_insecure: false,
    }
}

fn vmess_node() -> Node {
    Node {
        id: text("n-2"),
        protocol: text("vmess"),
        name: text("v"),
        address: text("v.example.net"),
        port: 8443,
        uuid: some("0b0e7d3c-7a43-4c0e-9d6e-0d8f1f2a3b4c"),
        password: None,
        cipher: None,
        sni: None,
        allow_insecure: false,
    }
}

fn shadowsocks_node() -> Node {
    Node {
        id: text("n-3"),
        protocol: text("ss"),
        name: text("s"),
        address: text("10.1.2.3"),
        port: 8388,
        uuid: None,
        password: some("pw"),
        cipher: some("aes-256-gcm"),
        sni: None,
        allow_insecure: false,
    }
}

fn is_catch_all(rule: &RouteRule) -> bool {
    rule.protocol.is_none()
        && rule.domain.is_none()
        && rule.domain_suffix.is_none()
        && rule.ip_cidr.is_none()
        && rule.port.is_none()
        && rule.action.is_none()
        && rule.outbound.is_some()
}

fn is_dns_default(rule: &DnsRule) -> bool {
    rule.domain.is_none() && rule.domain_suffix.is_none() && rule.outbound.is_none()
}

fn whitelist(items: &[&str]) -> Vec<String> {
    items.iter().map(|s| s.to_string()).collect()
}

fn rules_of(config: &SingBoxConfig) -> &Vec<RouteRule> {
    &config.route.rules
}

#[test]
fn mode_names() {
    assert_eq!(RoutingMode::from_name("Direct"), RoutingMode::Direct);
    assert_eq!(RoutingMode::from_name("Rule"), RoutingMode::Rule);
    assert_eq!(RoutingMode::from_name("Global"), RoutingMode::Global);
    assert_eq!(RoutingMode::from_name("direct"), RoutingMode::Global);
    assert_eq!(RoutingMode::from_name(""), RoutingMode::Global);
    assert_eq!(RoutingMode::from_name("Rules"), RoutingMode::Global);
}

#[test]
fn anti_loop_rule_precedes_catch_all_in_rule_mode() {
    let node = trojan_node();
    let config = generate_singbox_config(&node, "Rule", 2080, &whitelist(&["baidu.com", "qq.com"]), false);
    let rules = rules_of(&config);
    let anti_loop = rules
        .iter()
        .position(|r| r.domain == Some(vec![text("relay.example.org")]))
        .unwrap();
    assert_eq!(anti_loop, 1);
    assert_eq!(rules[anti_loop].outbound, some("direct"));
    let last = rules.len() - 1;
    assert!(anti_loop < last);
    assert!(is_catch_all(&rules[last]));
    for rule in &rules[..last] {
        assert!(!is_catch_all(rule));
    }
}

#[test]
fn first_rule_hijacks_dns() {
    let config = generate_singbox_config(&vmess_node(), "Global", 2080, &[], false);
    let first = &rules_of(&config)[0];
    assert_eq!(first.protocol, Some(vec![text("dns")]));
    assert_eq!(first.action, some("hijack-dns"));
    assert_eq!(first.outbound, None);
    assert_eq!(first.domain, None);
    assert_eq!(first.domain_suffix, None);
}

#[test]
fn direct_mode_catch_all_is_direct() {
    for node in [trojan_node(), vmess_node(), shadowsocks_node()] {
        for list in [whitelist(&[]), whitelist(&["baidu.com"])] {
            let config = generate_singbox_config(&node, "Direct", 2080, &list, false);
            let rules = rules_of(&config);
            assert_eq!(rules.len(), 3);
            assert_eq!(rules[2].outbound, some("direct"));
            assert!(is_catch_all(&rules[2]));
        }
    }
}

#[test]
fn global_and_rule_catch_all_is_proxy() {
    let config = generate_singbox_config(&vmess_node(), "Global", 2080, &whitelist(&["baidu.com"]), false);
    let rules = rules_of(&config);
    assert_eq!(rules.len(), 3);
    assert_eq!(rules[2].outbound, some("proxy"));
    let config = generate_singbox_config(&vmess_node(), "Rule", 2080, &[], false);
    let rules = rules_of(&config);
    assert_eq!(rules.len(), 4);
    assert_eq!(rules[3].outbound, some("proxy"));
    let config = generate_singbox_config(&vmess_node(), "anything else", 2080, &[], false);
    assert_eq!(rules_of(&config).last().unwrap().outbound, some("proxy"));
}

#[test]
fn whitelist_rule_precedes_regional_default_and_catch_all() {
    let config = generate_singbox_config(&trojan_node(), "Rule", 2080, &whitelist(&["baidu.com"]), false);
    let rules = rules_of(&config);
    assert_eq!(rules.len(), 5);
    let listed = rules
        .iter()
        .position(|r| r.domain_suffix == Some(vec![text("baidu.com")]))
        .unwrap();
    let regional = rules
        .iter()
        .position(|r| r.domain_suffix == Some(vec![text("cn")]))
        .unwrap();
    let last = rules.iter().position(is_catch_all).unwrap();
    assert_eq!((listed, regional, last), (2, 3, 4));
    assert_eq!(rules[listed].outbound, some("direct"));
    assert_eq!(rules[regional].outbound, some("direct"));
    assert_eq!(rules[last].outbound, some("proxy"));
}

#[test]
fn empty_whitelist_adds_no_suffix_rule() {
    let config = generate_singbox_config(&trojan_node(), "Rule", 2080, &[], false);
    let rules = rules_of(&config);
    assert_eq!(rules.len(), 4);
    assert_eq!(rules[2].domain_suffix, Some(vec![text("cn")]));
    assert_eq!(config.dns.rules.len(), 2);
}

#[test]
fn whitelist_is_used_in_rule_mode_only() {
    for mode in ["Direct", "Global"] {
        let config = generate_singbox_config(&trojan_node(), mode, 2080, &whitelist(&["baidu.com"]), false);
        assert!(rules_of(&config).iter().all(|r| r.domain_suffix.is_none()));
        assert!(config.dns.rules.iter().all(|r| r.domain_suffix.is_none()));
    }
}

#[test]
fn whitelist_keeps_its_order() {
    let list = whitelist(&["localhost", "127.0.0.1", "baidu.com", "qq.com"]);
    let config = generate_singbox_config(&trojan_node(), "Rule", 2080, &list, false);
    assert_eq!(rules_of(&config)[2].domain_suffix, Some(list.clone()));
    assert_eq!(config.dns.rules[1].domain_suffix, Some(list));
}

#[test]
fn listener_is_loopback_unless_lan_is_allowed() {
    let closed = generate_singbox_config(&vmess_node(), "Rule", 7890, &[], false);
    assert_eq!(closed.inbounds.len(), 1);
    assert_eq!(closed.inbounds[0].listen, "127.0.0.1");
    assert_eq!(closed.inbounds[0].listen_port, 7890);
    let open = generate_singbox_config(&vmess_node(), "Rule", 7890, &[], true);
    assert_eq!(open.inbounds.len(), 1);
    assert_eq!(open.inbounds[0].listen, "0.0.0.0");
    assert_eq!(open.inbounds[0].listen_port, 7890);
    assert_eq!(open.inbounds[0].inbound_type, "mixed");
    assert_eq!(open.inbounds[0].tag, "mixed-in");
}

#[test]
fn trojan_outbound_has_tls_without_validation() {
    let node = trojan_node();
    let config = generate_singbox_config(&node, "Global", 2080, &[], false);
    let out: &Outbound = &config.outbounds[0];
    assert_eq!(out.outbound_type, "trojan");
    assert_eq!(out.tag, "proxy");
    assert_eq!(out.server, some("relay.example.org"));
    assert_eq!(out.server_port, Some(443));
    assert_eq!(out.password, some("secret"));
    let tls = out.tls.as_ref().unwrap();
    assert!(tls.enabled);
    assert_eq!(tls.server_name, node.sni);
    assert_eq!(tls.insecure, Some(true));
    assert_eq!(out.uuid, None);
    assert_eq!(out.method, None);
}

#[test]
fn trojan_outbound_without_server_name() {
    let mut node = trojan_node();
    node.sni = None;
    let out = convert_node_to_outbound(&node);
    let tls = out.tls.unwrap();
    assert!(tls.enabled);
    assert_eq!(tls.server_name, None);
    assert_eq!(tls.insecure, Some(true));
}

#[test]
fn vmess_outbound() {
    let out = convert_node_to_outbound(&vmess_node());
    assert_eq!(out.outbound_type, "vmess");
    assert_eq!(out.tag, "proxy");
    assert_eq!(out.server, some("v.example.net"));
    assert_eq!(out.server_port, Some(8443));
    assert_eq!(out.uuid, some("0b0e7d3c-7a43-4c0e-9d6e-0d8f1f2a3b4c"));
    assert_eq!(out.security, some("auto"));
    assert_eq!(out.alter_id, Some(0));
    assert_eq!(out.password, None);
    assert!(out.tls.is_none());
}

#[test]
fn shadowsocks_outbound() {
    let out = convert_node_to_outbound(&shadowsocks_node());
    assert_eq!(out.outbound_type, "shadowsocks");
    assert_eq!(out.tag, "proxy");
    assert_eq!(out.server, some("10.1.2.3"));
    assert_eq!(out.server_port, Some(8388));
    assert_eq!(out.password, some("pw"));
    assert_eq!(out.method, some("aes-256-gcm"));
    assert_eq!(out.uuid, None);
    assert!(out.tls.is_none());
}

#[test]
fn unknown_protocol_outbound_keeps_its_name() {
    let mut node = vmess_node();
    node.protocol = text("hysteria");
    let out = convert_node_to_outbound(&node);
    assert_eq!(out.outbound_type, "hysteria");
    assert_eq!(out.server, some("v.example.net"));
    assert_eq!(out.uuid, None);
    assert_eq!(out.security, None);
    assert_eq!(out.alter_id, None);
    assert_eq!(out.password, None);
    assert!(out.tls.is_none());
}

#[test]
fn outbounds_are_proxy_then_direct() {
    let config = generate_singbox_config(&vmess_node(), "Rule", 2080, &[], false);
    assert_eq!(config.outbounds.len(), 2);
    assert_eq!(config.outbounds[0].tag, "proxy");
    let direct = &config.outbounds[1];
    assert_eq!(direct.outbound_type, "direct");
    assert_eq!(direct.tag, "direct");
    assert_eq!(direct.server, None);
    assert_eq!(direct.server_port, None);
}

#[test]
fn dns_rules_mirror_routing() {
    let config = generate_singbox_config(&trojan_node(), "Rule", 2080, &whitelist(&["baidu.com"]), false);
    let rules = &config.dns.rules;
    assert_eq!(rules.len(), 3);
    assert_eq!(rules[0].domain, Some(vec![text("relay.example.org")]));
    assert_eq!(rules[0].server, some("local"));
    assert_eq!(rules[1].domain_suffix, Some(vec![text("baidu.com")]));
    assert_eq!(rules[1].server, some("local"));
    assert!(is_dns_default(&rules[2]));
    assert_eq!(rules[2].server, some("google"));
    assert!(!is_dns_default(&rules[0]));
    assert!(!is_dns_default(&rules[1]));
}

#[test]
fn dns_servers_and_fixed_parts() {
    let config = generate_singbox_config(&trojan_node(), "Global", 2080, &[], false);
    let servers = &config.dns.servers;
    assert_eq!(servers.len(), 2);
    assert_eq!(servers[0].tag, "google");
    assert_eq!(servers[0].address, "8.8.8.8");
    assert_eq!(servers[0].detour, some("proxy"));
    assert_eq!(servers[0].address_resolver, None);
    assert_eq!(servers[1].tag, "local");
    assert_eq!(servers[1].address, "223.5.5.5");
    assert_eq!(servers[1].detour, some("direct"));
    assert_eq!(config.dns.strategy, "ipv4_only");
    assert_eq!(config.dns.rules.len(), 2);
    assert_eq!(config.log.level, "info");
    assert_eq!(config.log.output, "");
    assert!(config.route.auto_detect_interface);
}
