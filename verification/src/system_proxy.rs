use crate::text::clone_strings;
use vstd::prelude::*;
use vstd::string::StringExecFns;

verus! {

/// Which of the two representations of a proxy the host is given.
#[derive(Clone, Copy, Debug, PartialEq, Eq, Structural)]
pub enum ProxyMode {
    /// A fixed address and port.
    Static,
    /// The address of a proxy auto-configuration script.
    Pac,
}

/// The whole proxy configuration of the host, as one value.
///
/// A transition never patches single fields: it writes one such value over
/// whatever the host held before.
#[derive(Debug)]
pub struct SystemProxyState {
    pub enabled: bool,
    pub mode: ProxyMode,
    pub host: String,
    pub port: u16,
    /// Hosts that are reached without the proxy.
    pub bypass: Vec<String>,
    /// Address of the script, in `Pac` mode.
    pub pac_url: String,
}

pub struct SystemProxyStateView {
    pub enabled: bool,
    pub mode: ProxyMode,
    pub host: Seq<char>,
    pub port: u16,
    pub bypass: Seq<Seq<char>>,
    pub pac_url: Seq<char>,
}

impl DeepView for SystemProxyState {
    type V = SystemProxyStateView;

    open spec fn deep_view(&self) -> SystemProxyStateView {
        SystemProxyStateView {
            enabled: self.enabled,
            mode: self.mode,
            host: self.host@,
            port: self.port,
            bypass: self.bypass.deep_view(),
            pac_url: self.pac_url@,
        }
    }
}

impl View for SystemProxyState {
    type V = SystemProxyStateView;

    open spec fn view(&self) -> SystemProxyStateView {
        self.deep_view()
    }
}

impl SystemProxyStateView {
    /// Only the representation that the mode names is filled in, and a
    /// disabled state holds nothing at all.
    pub open spec fn consistent(self) -> bool {
        &&& self.enabled && self.mode == ProxyMode::Static ==> self.pac_url.len() == 0
        &&& self.enabled && self.mode == ProxyMode::Pac ==> self.host.len() == 0 && self.port == 0
            && self.bypass.len() == 0
        &&& !self.enabled ==> self == cleared_proxy()
    }
}

/// The state that sends traffic to `host:port`, with the script address cleared.
pub open spec fn static_proxy(host: Seq<char>, port: u16, bypass: Seq<Seq<char>>)
    -> SystemProxyStateView {
    SystemProxyStateView {
        enabled: true,
        mode: ProxyMode::Static,
        host,
        port,
        bypass,
        pac_url: Seq::empty(),
    }
}

/// The state that points the host at the script at `url`, with the fixed
/// address, port and bypass list cleared.
pub open spec fn pac_proxy(url: Seq<char>) -> SystemProxyStateView {
    SystemProxyStateView {
        enabled: true,
        mode: ProxyMode::Pac,
        host: Seq::empty(),
        port: 0,
        bypass: Seq::empty(),
        pac_url: url,
    }
}

/// The state with no proxy: every field cleared.
pub open spec fn cleared_proxy() -> SystemProxyStateView {
    SystemProxyStateView {
        enabled: false,
        mode: ProxyMode::Static,
        host: Seq::empty(),
        port: 0,
        bypass: Seq::empty(),
        pac_url: Seq::empty(),
    }
}

/// The hosts that never go through the proxy: this machine and the private
/// address ranges.
pub open spec fn local_bypass() -> Seq<Seq<char>> {
    seq![
        "localhost"@,
        "127.*"@,
        "10.*"@,
        "172.16.*"@,
        "172.17.*"@,
        "172.18.*"@,
        "172.19.*"@,
        "172.20.*"@,
        "172.21.*"@,
        "172.22.*"@,
        "172.23.*"@,
        "172.24.*"@,
        "172.25.*"@,
        "172.26.*"@,
        "172.27.*"@,
        "172.28.*"@,
        "172.29.*"@,
        "172.30.*"@,
        "172.31.*"@,
        "192.168.*"@,
    ]
}

/// The state in which the session's listener is the host's proxy.
pub open spec fn session_proxy(port: u16) -> SystemProxyStateView {
    static_proxy("127.0.0.1"@, port, local_bypass())
}

/// `items` with `separator` between each two neighbours.
pub open spec fn joined(items: Seq<Seq<char>>, separator: Seq<char>) -> Seq<char>
    decreases items.len(),
{
    if items.len() == 0 {
        Seq::empty()
    } else if items.len() == 1 {
        items[0]
    } else {
        joined(items.drop_last(), separator) + separator + items.last()
    }
}

/// The desired state for a fixed proxy at `host:port`.
pub fn enable_system_proxy(host: &str, port: u16, bypass: &[String]) -> (state: SystemProxyState)
    ensures
        state@ == static_proxy(host@, port, bypass.deep_view()),
        state@.consistent(),
{
    SystemProxyState {
        enabled: true,
        mode: ProxyMode::Static,
        host: host.to_string(),
        port,
        bypass: clone_strings(bypass),
        pac_url: String::new(),
    }
}

/// The desired state for a proxy chosen by the script at `url`.
pub fn enable_pac_proxy(url: &str) -> (state: SystemProxyState)
    ensures
        state@ == pac_proxy(url@),
        state@.consistent(),
{
    let state = SystemProxyState {
        enabled: true,
        mode: ProxyMode::Pac,
        host: String::new(),
        port: 0,
        bypass: Vec::new(),
        pac_url: url.to_string(),
    };
    assert(state.bypass.deep_view() =~= Seq::<Seq<char>>::empty());
    state
}

/// The desired state with no proxy. Writing it is harmless when no proxy
/// was set.
pub fn disable_system_proxy() -> (state: SystemProxyState)
    ensures
        state@ == cleared_proxy(),
        state@.consistent(),
{
    let state = SystemProxyState {
        enabled: false,
        mode: ProxyMode::Static,
        host: String::new(),
        port: 0,
        bypass: Vec::new(),
        pac_url: String::new(),
    };
    assert(state.bypass.deep_view() =~= Seq::<Seq<char>>::empty());
    state
}

/// The list [`local_bypass`].
pub fn local_bypass_list() -> (list: Vec<String>)
    ensures
        list.deep_view() == local_bypass(),
{
    let mut list: Vec<String> = Vec::new();
    list.push("localhost".to_string());
    list.push("127.*".to_string());
    list.push("10.*".to_string());
    list.push("172.16.*".to_string());
    list.push("172.17.*".to_string());
    list.push("172.18.*".to_string());
    list.push("172.19.*".to_string());
    list.push("172.20.*".to_string());
    list.push("172.21.*".to_string());
    list.push("172.22.*".to_string());
    list.push("172.23.*".to_string());
    list.push("172.24.*".to_string());
    list.push("172.25.*".to_string());
    list.push("172.26.*".to_string());
    list.push("172.27.*".to_string());
    list.push("172.28.*".to_string());
    list.push("172.29.*".to_string());
    list.push("172.30.*".to_string());
    list.push("172.31.*".to_string());
    list.push("192.168.*".to_string());
    assert(list.deep_view() =~= local_bypass());
    list
}

/// The desired state in which the session's listener on `port` is the
/// host's proxy.
pub fn session_proxy_state(port: u16) -> (state: SystemProxyState)
    ensures
        state@ == session_proxy(port),
{
    let bypass = local_bypass_list();
    enable_system_proxy("127.0.0.1", port, bypass.as_slice())
}

/// Writes a list of hosts as one line, in the form the host's settings
/// take it.
pub fn join_hosts(items: &[String], separator: &str) -> (line: String)
    ensures
        line@ == joined(items.deep_view(), separator@),
{
    let mut line = String::new();
    let mut i: usize = 0;
    while i < items.len()
        invariant
            i <= items.len(),
            line@ == joined(items.deep_view().take(i as int), separator@),
        decreases items.len() - i,
    {
        proof {
            let before = items.deep_view().take(i as int);
            let after = items.deep_view().take(i + 1);
            assert(after.drop_last() =~= before);
            assert(after.last() == items@[i as int]@);
            if i == 0 {
                assert(line@ + items@[i as int]@ =~= items@[i as int]@);
            }
        }
        if i > 0 {
            line.append(separator);
        }
        line.append(items[i].as_str());
        i += 1;
    }
    assert(items.deep_view().take(items.len() as int) =~= items.deep_view());
    line
}

} // verus!
