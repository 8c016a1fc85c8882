use vstd::prelude::*;

verus! {

/// The whole engine configuration of one session.
#[derive(Debug)]
pub struct SingBoxConfig {
    pub log: LogConfig,
    pub inbounds: Vec<Inbound>,
    pub outbounds: Vec<Outbound>,
    pub route: RouteConfig,
    pub dns: DnsConfig,
}

#[derive(Debug)]
pub struct LogConfig {
    pub level: String,
    pub output: String,
}

/// A local listener that takes client connections into the engine.
#[derive(Debug)]
pub struct Inbound {
    pub inbound_type: String,
    pub tag: String,
    pub listen: String,
    pub listen_port: u16,
}

/// An egress path that routing rules can send traffic to.
#[derive(Debug)]
pub struct Outbound {
    pub outbound_type: String,
    pub tag: String,
    pub server: Option<String>,
    pub server_port: Option<u16>,
    pub uuid: Option<String>,
    pub security: Option<String>,
    pub alter_id: Option<u16>,
    pub password: Option<String>,
    pub method: Option<String>,
    pub tls: Option<TlsConfig>,
}

#[derive(Debug)]
pub struct TlsConfig {
    pub enabled: bool,
    pub server_name: Option<String>,
    pub insecure: Option<bool>,
}

/// The routing rules, tried in list order; the first match decides.
#[derive(Debug)]
pub struct RouteConfig {
    pub rules: Vec<RouteRule>,
    pub auto_detect_interface: bool,
}

/// One routing rule: the conditions that are `Some` must all match, and the
/// flow then goes to `outbound` or gets `action`. A rule with no condition
/// matches every flow.
#[derive(Debug)]
pub struct RouteRule {
    pub protocol: Option<Vec<String>>,
    /// Exact domain names.
    pub domain: Option<Vec<String>>,
    /// Domain suffixes.
    pub domain_suffix: Option<Vec<String>>,
    pub ip_cidr: Option<Vec<String>>,
    pub port: Option<Vec<u16>>,
    pub outbound: Option<String>,
    pub action: Option<String>,
}

#[derive(Debug)]
pub struct DnsConfig {
    pub servers: Vec<DnsServer>,
    /// Tried in list order; the first match decides.
    pub rules: Vec<DnsRule>,
    pub strategy: String,
}

#[derive(Debug)]
pub struct DnsServer {
    pub tag: String,
    pub address: String,
    pub address_resolver: Option<String>,
    /// Tag of the outbound through which the server is reached.
    pub detour: Option<String>,
}

#[derive(Debug)]
pub struct DnsRule {
    pub domain: Option<Vec<String>>,
    pub domain_suffix: Option<Vec<String>>,
    pub outbound: Option<Vec<String>>,
    pub server: Option<String>,
}

pub struct LogConfigView {
    pub level: Seq<char>,
    pub output: Seq<char>,
}

pub struct InboundView {
    pub inbound_type: Seq<char>,
    pub tag: Seq<char>,
    pub listen: Seq<char>,
    pub listen_port: u16,
}

pub struct TlsConfigView {
    pub enabled: bool,
    pub server_name: Option<Seq<char>>,
    pub insecure: Option<bool>,
}

pub struct OutboundView {
    pub outbound_type: Seq<char>,
    pub tag: Seq<char>,
    pub server: Option<Seq<char>>,
    pub server_port: Option<u16>,
    pub uuid: Option<Seq<char>>,
    pub security: Option<Seq<char>>,
    pub alter_id: Option<u16>,
    pub password: Option<Seq<char>>,
    pub method: Option<Seq<char>>,
    pub tls: Option<TlsConfigView>,
}

pub struct RouteRuleView {
    pub protocol: Option<Seq<Seq<char>>>,
    pub domain: Option<Seq<Seq<char>>>,
    pub domain_suffix: Option<Seq<Seq<char>>>,
    pub ip_cidr: Option<Seq<Seq<char>>>,
    pub port: Option<Seq<u16>>,
    pub outbound: Option<Seq<char>>,
    pub action: Option<Seq<char>>,
}

pub struct RouteConfigView {
    pub rules: Seq<RouteRuleView>,
    pub auto_detect_interface: bool,
}

pub struct DnsServerView {
    pub tag: Seq<char>,
    pub address: Seq<char>,
    pub address_resolver: Option<Seq<char>>,
    pub detour: Option<Seq<char>>,
}

pub struct DnsRuleView {
    pub domain: Option<Seq<Seq<char>>>,
    pub domain_suffix: Option<Seq<Seq<char>>>,
    pub outbound: Option<Seq<Seq<char>>>,
    pub server: Option<Seq<char>>,
}

pub struct DnsConfigView {
    pub servers: Seq<DnsServerView>,
    pub rules: Seq<DnsRuleView>,
    pub strategy: Seq<char>,
}

pub struct SingBoxConfigView {
    pub log: LogConfigView,
    pub inbounds: Seq<InboundView>,
    pub outbounds: Seq<OutboundView>,
    pub route: RouteConfigView,
    pub dns: DnsConfigView,
}

impl DeepView for LogConfig {
    type V = LogConfigView;

    open spec fn deep_view(&self) -> LogConfigView {
        LogConfigView { level: self.level@, output: self.output@ }
    }
}

impl View for LogConfig {
    type V = LogConfigView;

    open spec fn view(&self) -> LogConfigView {
        self.deep_view()
    }
}

impl DeepView for Inbound {
    type V = InboundView;

    open spec fn deep_view(&self) -> InboundView {
        InboundView {
            inbound_type: self.inbound_type@,
            tag: self.tag@,
            listen: self.listen@,
            listen_port: self.listen_port,
        }
    }
}

impl View for Inbound {
    type V = InboundView;

    open spec fn view(&self) -> InboundView {
        self.deep_view()
    }
}

impl DeepView for TlsConfig {
    type V = TlsConfigView;

    open spec fn deep_view(&self) -> TlsConfigView {
        TlsConfigView {
            enabled: self.enabled,
            server_name: self.server_name.deep_view(),
            insecure: self.insecure,
        }
    }
}

impl View for TlsConfig {
    type V = TlsConfigView;

    open spec fn view(&self) -> TlsConfigView {
        self.deep_view()
    }
}

impl Clone for TlsConfig {
    fn clone(&self) -> (copy: Self)
        ensures
            copy@ == self@,
    {
        TlsConfig {
            enabled: self.enabled,
            server_name: self.server_name.clone(),
            insecure: self.insecure,
        }
    }
}

impl Clone for Outbound {
    fn clone(&self) -> (copy: Self)
        ensures
            copy@ == self@,
    {
        Outbound {
            outbound_type: self.outbound_type.clone(),
            tag: self.tag.clone(),
            server: self.server.clone(),
            server_port: self.server_port,
            uuid: self.uuid.clone(),
            security: self.security.clone(),
            alter_id: self.alter_id,
            password: self.password.clone(),
            method: self.method.clone(),
            tls: self.tls.clone(),
        }
    }
}

impl DeepView for Outbound {
    type V = OutboundView;

    open spec fn deep_view(&self) -> OutboundView {
        OutboundView {
            outbound_type: self.outbound_type@,
            tag: self.tag@,
            server: self.server.deep_view(),
            server_port: self.server_port,
            uuid: self.uuid.deep_view(),
            security: self.security.deep_view(),
            alter_id: self.alter_id,
            password: self.password.deep_view(),
            method: self.method.deep_view(),
            tls: self.tls.deep_view(),
        }
    }
}

impl View for Outbound {
    type V = OutboundView;

    open spec fn view(&self) -> OutboundView {
        self.deep_view()
    }
}

impl DeepView for RouteRule {
    type V = RouteRuleView;

    open spec fn deep_view(&self) -> RouteRuleView {
        RouteRuleView {
            protocol: self.protocol.deep_view(),
            domain: self.domain.deep_view(),
            domain_suffix: self.domain_suffix.deep_view(),
            ip_cidr: self.ip_cidr.deep_view(),
            port: self.port.deep_view(),
            outbound: self.outbound.deep_view(),
            action: self.action.deep_view(),
        }
    }
}

impl View for RouteRule {
    type V = RouteRuleView;

    open spec fn view(&self) -> RouteRuleView {
        self.deep_view()
    }
}

impl DeepView for RouteConfig {
    type V = RouteConfigView;

    open spec fn deep_view(&self) -> RouteConfigView {
        RouteConfigView {
            rules: self.rules.deep_view(),
            auto_detect_interface: self.auto_detect_interface,
        }
    }
}

impl View for RouteConfig {
    type V = RouteConfigView;

    open spec fn view(&self) -> RouteConfigView {
        self.deep_view()
    }
}

impl DeepView for DnsServer {
    type V = DnsServerView;

    open spec fn deep_view(&self) -> DnsServerView {
        DnsServerView {
            tag: self.tag@,
            address: self.address@,
            address_resolver: self.address_resolver.deep_view(),
            detour: self.detour.deep_view(),
        }
    }
}

impl View for DnsServer {
    type V = DnsServerView;

    open spec fn view(&self) -> DnsServerView {
        self.deep_view()
    }
}

impl DeepView for DnsRule {
    type V = DnsRuleView;

    open spec fn deep_view(&self) -> DnsRuleView {
        DnsRuleView {
            domain: self.domain.deep_view(),
            domain_suffix: self.domain_suffix.deep_view(),
            outbound: self.outbound.deep_view(),
            server: self.server.deep_view(),
        }
    }
}

impl View for DnsRule {
    type V = DnsRuleView;

    open spec fn view(&self) -> DnsRuleView {
        self.deep_view()
    }
}

impl DeepView for DnsConfig {
    type V = DnsConfigView;

    open spec fn deep_view(&self) -> DnsConfigView {
        DnsConfigView {
            servers: self.servers.deep_view(),
            rules: self.rules.deep_view(),
            strategy: self.strategy@,
        }
    }
}

impl View for DnsConfig {
    type V = DnsConfigView;

    open spec fn view(&self) -> DnsConfigView {
        self.deep_view()
    }
}

impl DeepView for SingBoxConfig {
    type V = SingBoxConfigView;

    open spec fn deep_view(&self) -> SingBoxConfigView {
        SingBoxConfigView {
            log: self.log.deep_view(),
            inbounds: self.inbounds.deep_view(),
            outbounds: self.outbounds.deep_view(),
            route: self.route.deep_view(),
            dns: self.dns.deep_view(),
        }
    }
}

impl View for SingBoxConfig {
    type V = SingBoxConfigView;

    open spec fn view(&self) -> SingBoxConfigView {
        self.deep_view()
    }
}

} // verus!
