use crate::config::RouteRuleView;
use crate::config::DnsRuleView;
use crate::subscriptions::NodeView;
use crate::synthesis::{
    anti_loop_rule, catch_all_rule, dns_rule, dns_rules, listen_address, proxy_outbound,
    regional_rule, route_rules, suffix_direct_rule, synthesized, trojan_tls, RoutingMode,
};
use vstd::prelude::*;

verus! {

/// A routing rule that puts no condition on the flow and names an outbound:
/// it claims whatever reaches it.
pub open spec fn is_catch_all(rule: RouteRuleView) -> bool {
    &&& rule.protocol is None
    &&& rule.domain is None
    &&& rule.domain_suffix is None
    &&& rule.ip_cidr is None
    &&& rule.port is None
    &&& rule.action is None
    &&& rule.outbound is Some
}

/// A DNS rule that puts no condition on the query and names a server.
pub open spec fn is_dns_default(rule: DnsRuleView) -> bool {
    &&& rule.domain is None
    &&& rule.domain_suffix is None
    &&& rule.outbound is None
    &&& rule.server is Some
}

/// In every mode and for every node and whitelist, the anti-loop rule for
/// the node's address stands at the second place of the routing rules, the
/// last rule is the mode's catch-all, and no rule before the last claims
/// everything. So the catch-all is present, is last, and comes strictly
/// after the anti-loop rule.
pub proof fn lemma_anti_loop_before_catch_all(
    node: NodeView,
    mode: RoutingMode,
    port: u16,
    whitelist: Seq<Seq<char>>,
    allow_lan: bool,
)
    ensures
        ({
            let rules = synthesized(node, mode, port, whitelist, allow_lan).route.rules;
            &&& rules.len() >= 3
            &&& rules[1] == anti_loop_rule(node.address)
            &&& rules[1].domain == Some(seq![node.address])
            &&& rules[1].outbound == Some("direct"@)
            &&& rules.last() == catch_all_rule(mode)
            &&& is_catch_all(rules.last())
            &&& forall|i: int| 0 <= i < rules.len() - 1 ==> !is_catch_all(#[trigger] rules[i])
        }),
{
    let rules = route_rules(node.address, mode, whitelist);
    assert(synthesized(node, mode, port, whitelist, allow_lan).route.rules == rules);
    assert forall|i: int| 0 <= i < rules.len() - 1 implies !is_catch_all(#[trigger] rules[i]) by {
        if i == 0 {
        } else if i == 1 {
        } else if i == 2 {
        } else {
        }
    }
}

/// In direct mode the catch-all sends to the direct outbound, whatever the
/// node and the whitelist; in the two other modes it sends to the node.
pub proof fn lemma_catch_all_follows_mode(
    node: NodeView,
    mode: RoutingMode,
    port: u16,
    whitelist: Seq<Seq<char>>,
    allow_lan: bool,
)
    ensures
        ({
            let rules = synthesized(node, mode, port, whitelist, allow_lan).route.rules;
            &&& mode == RoutingMode::Direct ==> rules.last().outbound == Some("direct"@)
            &&& mode != RoutingMode::Direct ==> rules.last().outbound == Some("proxy"@)
            &&& "direct"@ != "proxy"@
        }),
{
    reveal_strlit("direct");
    reveal_strlit("proxy");
    assert("direct"@.len() != "proxy"@.len());
}

/// In rule mode with a whitelist that is not empty, the rule that sends the
/// whitelisted suffixes out directly stands right after the anti-loop rule,
/// before the regional default, which stands before the catch-all. With an
/// empty whitelist the regional default follows the anti-loop rule at once.
/// In the other modes the catch-all does.
pub proof fn lemma_whitelist_before_defaults(
    node: NodeView,
    mode: RoutingMode,
    port: u16,
    whitelist: Seq<Seq<char>>,
    allow_lan: bool,
)
    ensures
        ({
            let rules = synthesized(node, mode, port, whitelist, allow_lan).route.rules;
            &&& mode == RoutingMode::Rule && whitelist.len() > 0 ==> {
                &&& rules.len() == 5
                &&& rules[2] == suffix_direct_rule(whitelist)
                &&& rules[2].domain_suffix == Some(whitelist)
                &&& rules[2].outbound == Some("direct"@)
                &&& rules[3] == regional_rule()
                &&& rules[4] == catch_all_rule(mode)
            }
            &&& mode == RoutingMode::Rule && whitelist.len() == 0 ==> {
                &&& rules.len() == 4
                &&& rules[2] == regional_rule()
                &&& rules[3] == catch_all_rule(mode)
            }
            &&& mode != RoutingMode::Rule ==> {
                &&& rules.len() == 3
                &&& rules[2] == catch_all_rule(mode)
            }
        }),
{
}

/// The configuration has one listener. It binds to the loopback address
/// unless the LAN may use it, and then to every interface; either way it
/// listens on the port that was asked for.
pub proof fn lemma_listener_follows_lan_flag(
    node: NodeView,
    mode: RoutingMode,
    port: u16,
    whitelist: Seq<Seq<char>>,
    allow_lan: bool,
)
    ensures
        ({
            let inbounds = synthesized(node, mode, port, whitelist, allow_lan).inbounds;
            &&& inbounds.len() == 1
            &&& inbounds[0].listen_port == port
            &&& inbounds[0].listen == listen_address(allow_lan)
            &&& !allow_lan ==> inbounds[0].listen == "127.0.0.1"@
            &&& allow_lan ==> inbounds[0].listen == "0.0.0.0"@
            &&& "127.0.0.1"@ != "0.0.0.0"@
        }),
{
    reveal_strlit("127.0.0.1");
    reveal_strlit("0.0.0.0");
    assert("127.0.0.1"@.len() != "0.0.0.0"@.len());
}

/// For a trojan node the first outbound of the configuration is the node's:
/// of type trojan, with the node's server, port and password, TLS switched
/// on, the node's server name, and certificate validation switched off.
pub proof fn lemma_trojan_outbound_tls(
    node: NodeView,
    mode: RoutingMode,
    port: u16,
    whitelist: Seq<Seq<char>>,
    allow_lan: bool,
)
    requires
        node.protocol == "trojan"@,
    ensures
        ({
            let out = synthesized(node, mode, port, whitelist, allow_lan).outbounds[0];
            &&& out == proxy_outbound(node)
            &&& out.outbound_type == "trojan"@
            &&& out.tag == "proxy"@
            &&& out.server == Some(node.address)
            &&& out.server_port == Some(node.port)
            &&& out.password == node.password
            &&& out.tls == Some(trojan_tls(node.sni))
            &&& out.tls->0.enabled
            &&& out.tls->0.server_name == node.sni
            &&& out.tls->0.insecure == Some(true)
        }),
{
    reveal_strlit("trojan");
    reveal_strlit("vmess");
    assert("trojan"@.len() != "vmess"@.len());
}

/// The DNS rules begin with the node's own address, resolved locally, and
/// end with the rule that sends every other query to the remote server; no
/// rule before the last takes every query.
pub proof fn lemma_dns_rules_mirror_routing(
    node: NodeView,
    mode: RoutingMode,
    port: u16,
    whitelist: Seq<Seq<char>>,
    allow_lan: bool,
)
    ensures
        ({
            let rules = synthesized(node, mode, port, whitelist, allow_lan).dns.rules;
            &&& rules.len() >= 2
            &&& rules[0] == dns_rule(Some(seq![node.address]), None, "local"@)
            &&& rules.last() == dns_rule(None, None, "google"@)
            &&& is_dns_default(rules.last())
            &&& forall|i: int| 0 <= i < rules.len() - 1 ==> !is_dns_default(#[trigger] rules[i])
            &&& mode == RoutingMode::Rule && whitelist.len() > 0 ==> rules[1] == dns_rule(
                None,
                Some(whitelist),
                "local"@,
            )
        }),
{
    let rules = dns_rules(node.address, mode, whitelist);
    assert(synthesized(node, mode, port, whitelist, allow_lan).dns.rules == rules);
    assert forall|i: int| 0 <= i < rules.len() - 1 implies !is_dns_default(#[trigger] rules[i]) by {
        if i == 0 {
        } else {
        }
    }
}

} // verus!
