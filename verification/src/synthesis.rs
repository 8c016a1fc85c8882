use crate::config::{
    DnsConfig, DnsConfigView, DnsRule, DnsRuleView, DnsServer, DnsServerView, Inbound, InboundView,
    LogConfig, LogConfigView, Outbound, OutboundView, RouteConfig, RouteConfigView, RouteRule,
    RouteRuleView, SingBoxConfig, SingBoxConfigView, TlsConfig, TlsConfigView,
};
use crate::subscriptions::{Node, NodeView};
use crate::text::{clone_strings, str_eq};
use vstd::prelude::*;

verus! {

/// How traffic that no earlier rule claims is routed.
#[derive(Clone, Copy, Debug, PartialEq, Eq, Structural)]
pub enum RoutingMode {
    /// Everything goes out directly.
    Direct,
    /// Whitelisted and regional domains go out directly, the rest through the node.
    Rule,
    /// Everything goes through the node.
    Global,
}

impl RoutingMode {
    /// The mode that a mode name selects: `"Direct"` and `"Rule"` name their
    /// modes, every other name means `Global`.
    pub open spec fn named(name: Seq<char>) -> RoutingMode {
        if name == "Direct"@ {
            RoutingMode::Direct
        } else if name == "Rule"@ {
            RoutingMode::Rule
        } else {
            RoutingMode::Global
        }
    }

    pub fn from_name(name: &str) -> (mode: RoutingMode)
        ensures
            mode == RoutingMode::named(name@),
    {
        if str_eq(name, "Direct") {
            RoutingMode::Direct
        } else if str_eq(name, "Rule") {
            RoutingMode::Rule
        } else {
            RoutingMode::Global
        }
    }

    /// Tag of the outbound that takes unclaimed traffic in this mode.
    pub open spec fn final_tag(self) -> Seq<char> {
        match self {
            RoutingMode::Direct => "direct"@,
            _ => "proxy"@,
        }
    }
}

/// The address the local listener binds to: every interface when the port is
/// shared with the LAN, the loopback address otherwise.
pub open spec fn listen_address(allow_lan: bool) -> Seq<char> {
    if allow_lan {
        "0.0.0.0"@
    } else {
        "127.0.0.1"@
    }
}

pub open spec fn mixed_inbound(port: u16, allow_lan: bool) -> InboundView {
    InboundView {
        inbound_type: "mixed"@,
        tag: "mixed-in"@,
        listen: listen_address(allow_lan),
        listen_port: port,
    }
}

/// An outbound of the given type and tag with no server and no credentials.
pub open spec fn bare_outbound(outbound_type: Seq<char>, tag: Seq<char>) -> OutboundView {
    OutboundView {
        outbound_type,
        tag,
        server: None,
        server_port: None,
        uuid: None,
        security: None,
        alter_id: None,
        password: None,
        method: None,
        tls: None,
    }
}

pub open spec fn direct_outbound() -> OutboundView {
    bare_outbound("direct"@, "direct"@)
}

/// The TLS block of a trojan outbound. Certificate validation is switched
/// off on purpose, so that self-signed relay certificates are accepted.
pub open spec fn trojan_tls(sni: Option<Seq<char>>) -> TlsConfigView {
    TlsConfigView { enabled: true, server_name: sni, insecure: Some(true) }
}

/// The outbound, tagged `proxy`, that reaches `node`.
///
/// A vmess node gives its user id, automatic security and alter id zero; a
/// trojan node its password and a TLS block; a shadowsocks node its password
/// and cipher, under the engine's type name `shadowsocks`. A node of any other
/// protocol gives its server and port under its own protocol name.
pub open spec fn proxy_outbound(node: NodeView) -> OutboundView {
    let base = OutboundView {
        server: Some(node.address),
        server_port: Some(node.port),
        ..bare_outbound(node.protocol, "proxy"@)
    };
    if node.protocol == "vmess"@ {
        OutboundView { uuid: node.uuid, security: Some("auto"@), alter_id: Some(0u16), ..base }
    } else if node.protocol == "trojan"@ {
        OutboundView { password: node.password, tls: Some(trojan_tls(node.sni)), ..base }
    } else if node.protocol == "ss"@ {
        OutboundView {
            outbound_type: "shadowsocks"@,
            password: node.password,
            method: node.cipher,
            ..base
        }
    } else {
        base
    }
}

/// A routing rule with no condition, no outbound and no action.
pub open spec fn blank_rule() -> RouteRuleView {
    RouteRuleView {
        protocol: None,
        domain: None,
        domain_suffix: None,
        ip_cidr: None,
        port: None,
        outbound: None,
        action: None,
    }
}

/// Hands every DNS query to the engine's own resolver.
pub open spec fn dns_hijack_rule() -> RouteRuleView {
    RouteRuleView { protocol: Some(seq!["dns"@]), action: Some("hijack-dns"@), ..blank_rule() }
}

/// Sends traffic for the node's own address out directly, so that reaching
/// the node never depends on the node.
pub open spec fn anti_loop_rule(address: Seq<char>) -> RouteRuleView {
    RouteRuleView { domain: Some(seq![address]), outbound: Some("direct"@), ..blank_rule() }
}

/// Sends traffic for domains under one of `suffixes` out directly.
pub open spec fn suffix_direct_rule(suffixes: Seq<Seq<char>>) -> RouteRuleView {
    RouteRuleView { domain_suffix: Some(suffixes), outbound: Some("direct"@), ..blank_rule() }
}

/// The regional default of rule mode: domains under `cn` go out directly.
pub open spec fn regional_rule() -> RouteRuleView {
    suffix_direct_rule(seq!["cn"@])
}

/// Takes whatever no earlier rule claimed.
pub open spec fn catch_all_rule(mode: RoutingMode) -> RouteRuleView {
    RouteRuleView { outbound: Some(mode.final_tag()), ..blank_rule() }
}

/// The rules that only rule mode adds, between the anti-loop rule and the
/// catch-all: the whitelist, when it is not empty, then the regional default.
pub open spec fn carve_outs(mode: RoutingMode, whitelist: Seq<Seq<char>>) -> Seq<RouteRuleView> {
    if mode != RoutingMode::Rule {
        seq![]
    } else if whitelist.len() == 0 {
        seq![regional_rule()]
    } else {
        seq![suffix_direct_rule(whitelist), regional_rule()]
    }
}

/// The routing rules in the order in which the engine tries them.
pub open spec fn route_rules(
    address: Seq<char>,
    mode: RoutingMode,
    whitelist: Seq<Seq<char>>,
) -> Seq<RouteRuleView> {
    seq![dns_hijack_rule(), anti_loop_rule(address)] + carve_outs(mode, whitelist)
        + seq![catch_all_rule(mode)]
}

/// Resolves the given exact domains or suffixes through the server `server`.
pub open spec fn dns_rule(
    domain: Option<Seq<Seq<char>>>,
    domain_suffix: Option<Seq<Seq<char>>>,
    server: Seq<char>,
) -> DnsRuleView {
    DnsRuleView { domain, domain_suffix, outbound: None, server: Some(server) }
}

/// The DNS rules in the order in which the engine tries them: the node's own
/// address and, in rule mode, the whitelist resolve locally, everything else
/// through the remote server.
pub open spec fn dns_rules(
    address: Seq<char>,
    mode: RoutingMode,
    whitelist: Seq<Seq<char>>,
) -> Seq<DnsRuleView> {
    let own = seq![dns_rule(Some(seq![address]), None, "local"@)];
    let listed = if mode == RoutingMode::Rule && whitelist.len() > 0 {
        seq![dns_rule(None, Some(whitelist), "local"@)]
    } else {
        seq![]
    };
    own + listed + seq![dns_rule(None, None, "google"@)]
}

/// The remote server, reached through the node, and the local one, reached
/// directly.
pub open spec fn dns_servers() -> Seq<DnsServerView> {
    seq![
        DnsServerView {
            tag: "google"@,
            address: "8.8.8.8"@,
            address_resolver: None,
            detour: Some("proxy"@),
        },
        DnsServerView {
            tag: "local"@,
            address: "223.5.5.5"@,
            address_resolver: None,
            detour: Some("direct"@),
        },
    ]
}

/// The configuration that a node, a mode and the user's settings call for.
pub open spec fn synthesized(
    node: NodeView,
    mode: RoutingMode,
    port: u16,
    whitelist: Seq<Seq<char>>,
    allow_lan: bool,
) -> SingBoxConfigView {
    SingBoxConfigView {
        log: LogConfigView { level: "info"@, output: ""@ },
        inbounds: seq![mixed_inbound(port, allow_lan)],
        outbounds: seq![proxy_outbound(node), direct_outbound()],
        route: RouteConfigView {
            rules: route_rules(node.address, mode, whitelist),
            auto_detect_interface: true,
        },
        dns: DnsConfigView {
            servers: dns_servers(),
            rules: dns_rules(node.address, mode, whitelist),
            strategy: "ipv4_only"@,
        },
    }
}

fn single(item: String) -> (list: Vec<String>)
    ensures
        list.deep_view() == seq![item@],
{
    let mut list: Vec<String> = Vec::new();
    list.push(item);
    assert(list.deep_view() =~= seq![item@]);
    list
}

fn make_bare_outbound(outbound_type: String, tag: String) -> (out: Outbound)
    ensures
        out@ == bare_outbound(outbound_type@, tag@),
{
    Outbound {
        outbound_type,
        tag,
        server: None,
        server_port: None,
        uuid: None,
        security: None,
        alter_id: None,
        password: None,
        method: None,
        tls: None,
    }
}

fn make_rule(
    protocol: Option<Vec<String>>,
    domain: Option<Vec<String>>,
    domain_suffix: Option<Vec<String>>,
    outbound: Option<String>,
    action: Option<String>,
) -> (rule: RouteRule)
    ensures
        rule@ == (RouteRuleView {
            protocol: protocol.deep_view(),
            domain: domain.deep_view(),
            domain_suffix: domain_suffix.deep_view(),
            outbound: outbound.deep_view(),
            action: action.deep_view(),
            ..blank_rule()
        }),
{
    RouteRule { protocol, domain, domain_suffix, ip_cidr: None, port: None, outbound, action }
}

fn make_dns_rule(
    domain: Option<Vec<String>>,
    domain_suffix: Option<Vec<String>>,
    server: &str,
) -> (rule: DnsRule)
    ensures
        rule@ == dns_rule(domain.deep_view(), domain_suffix.deep_view(), server@),
{
    DnsRule { domain, domain_suffix, outbound: None, server: Some(server.to_string()) }
}

fn make_dns_server(tag: &str, address: &str, detour: &str) -> (server: DnsServer)
    ensures
        server@ == (DnsServerView {
            tag: tag@,
            address: address@,
            address_resolver: None,
            detour: Some(detour@),
        }),
{
    DnsServer {
        tag: tag.to_string(),
        address: address.to_string(),
        address_resolver: None,
        detour: Some(detour.to_string()),
    }
}

/// Builds the outbound, tagged `proxy`, that reaches `node`.
pub fn convert_node_to_outbound(node: &Node) -> (out: Outbound)
    ensures
        out@ == proxy_outbound(node@),
{
    let mut out = make_bare_outbound(node.protocol.clone(), "proxy".to_string());
    out.server = Some(node.address.clone());
    out.server_port = Some(node.port);
    if str_eq(node.protocol.as_str(), "vmess") {
        out.uuid = node.uuid.clone();
        out.security = Some("auto".to_string());
        out.alter_id = Some(0);
    } else if str_eq(node.protocol.as_str(), "trojan") {
        out.password = node.password.clone();
        out.tls = Some(TlsConfig { enabled: true, server_name: node.sni.clone(), insecure: Some(true) });
    } else if str_eq(node.protocol.as_str(), "ss") {
        out.outbound_type = "shadowsocks".to_string();
        out.password = node.password.clone();
        out.method = node.cipher.clone();
    }
    out
}

fn make_route_rules(address: &String, mode: RoutingMode, whitelist: &[String]) -> (rules: Vec<
    RouteRule,
>)
    ensures
        rules.deep_view() == route_rules(address@, mode, whitelist.deep_view()),
{
    let mut rules: Vec<RouteRule> = Vec::new();
    rules.push(
        make_rule(
            Some(single("dns".to_string())),
            None,
            None,
            None,
            Some("hijack-dns".to_string()),
        ),
    );
    rules.push(
        make_rule(None, Some(single(address.clone())), None, Some("direct".to_string()), None),
    );
    if mode == RoutingMode::Rule {
        if whitelist.len() > 0 {
            rules.push(
                make_rule(
                    None,
                    None,
                    Some(clone_strings(whitelist)),
                    Some("direct".to_string()),
                    None,
                ),
            );
        }
        rules.push(
            make_rule(None, None, Some(single("cn".to_string())), Some("direct".to_string()), None),
        );
    }
    let final_tag = match mode {
        RoutingMode::Direct => "direct",
        _ => "proxy",
    };
    rules.push(make_rule(None, None, None, Some(final_tag.to_string()), None));
    assert(rules.deep_view() =~= route_rules(address@, mode, whitelist.deep_view()));
    rules
}

fn make_dns_rules(address: &String, mode: RoutingMode, whitelist: &[String]) -> (rules: Vec<
    DnsRule,
>)
    ensures
        rules.deep_view() == dns_rules(address@, mode, whitelist.deep_view()),
{
    let mut rules: Vec<DnsRule> = Vec::new();
    rules.push(make_dns_rule(Some(single(address.clone())), None, "local"));
    if mode == RoutingMode::Rule && whitelist.len() > 0 {
        rules.push(make_dns_rule(None, Some(clone_strings(whitelist)), "local"));
    }
    rules.push(make_dns_rule(None, None, "google"));
    assert(rules.deep_view() =~= dns_rules(address@, mode, whitelist.deep_view()));
    rules
}

/// Builds the engine configuration for one session.
///
/// `mode` is a mode name as [`RoutingMode::named`] reads it. The result is a
/// function of the arguments alone; every call builds a fresh document.
pub fn generate_singbox_config(
    node: &Node,
    mode: &str,
    port: u16,
    whitelist: &[String],
    allow_lan: bool,
) -> (config: SingBoxConfig)
    ensures
        config@ == synthesized(
            node@,
            RoutingMode::named(mode@),
            port,
            whitelist.deep_view(),
            allow_lan,
        ),
{
    let mode = RoutingMode::from_name(mode);
    let listen = if allow_lan {
        "0.0.0.0"
    } else {
        "127.0.0.1"
    };
    let mut inbounds: Vec<Inbound> = Vec::new();
    inbounds.push(
        Inbound {
            inbound_type: "mixed".to_string(),
            tag: "mixed-in".to_string(),
            listen: listen.to_string(),
            listen_port: port,
        },
    );
    assert(inbounds.deep_view() =~= seq![mixed_inbound(port, allow_lan)]);

    let mut outbounds: Vec<Outbound> = Vec::new();
    outbounds.push(convert_node_to_outbound(node));
    outbounds.push(make_bare_outbound("direct".to_string(), "direct".to_string()));
    assert(outbounds.deep_view() =~= seq![proxy_outbound(node@), direct_outbound()]);

    let mut servers: Vec<DnsServer> = Vec::new();
    servers.push(make_dns_server("google", "8.8.8.8", "proxy"));
    servers.push(make_dns_server("local", "223.5.5.5", "direct"));
    assert(servers.deep_view() =~= dns_servers());

    SingBoxConfig {
        log: LogConfig { level: "info".to_string(), output: "".to_string() },
        inbounds,
        outbounds,
        route: RouteConfig {
            rules: make_route_rules(&node.address, mode, whitelist),
            auto_detect_interface: true,
        },
        dns: DnsConfig {
            servers,
            rules: make_dns_rules(&node.address, mode, whitelist),
            strategy: "ipv4_only".to_string(),
        },
    }
}

} // verus!
