use crate::text::clone_strings;
use vstd::prelude::*;

verus! {

/// User preferences that shape a session.
#[derive(Debug)]
pub struct AppSettings {
    /// Port of the local mixed listener.
    pub mixed_port: u16,
    /// Domain suffixes that bypass the tunnel in rule mode, in the order given.
    pub whitelist: Vec<String>,
    /// Whether the listener is reachable from other hosts.
    pub allow_lan: bool,
}

pub struct AppSettingsView {
    pub mixed_port: u16,
    pub whitelist: Seq<Seq<char>>,
    pub allow_lan: bool,
}

impl View for AppSettings {
    type V = AppSettingsView;

    open spec fn view(&self) -> AppSettingsView {
        AppSettingsView {
            mixed_port: self.mixed_port,
            whitelist: self.whitelist.deep_view(),
            allow_lan: self.allow_lan,
        }
    }
}

pub open spec fn default_settings() -> AppSettingsView {
    AppSettingsView {
        mixed_port: 2080,
        whitelist: seq!["localhost"@, "127.0.0.1"@, "baidu.com"@, "qq.com"@],
        allow_lan: false,
    }
}

impl Clone for AppSettings {
    fn clone(&self) -> (copy: Self)
        ensures
            copy@ == self@,
    {
        AppSettings {
            mixed_port: self.mixed_port,
            whitelist: clone_strings(self.whitelist.as_slice()),
            allow_lan: self.allow_lan,
        }
    }
}

impl Default for AppSettings {
    fn default() -> (r: Self)
        ensures
            r@ == default_settings(),
    {
        let mut whitelist: Vec<String> = Vec::new();
        whitelist.push("localhost".to_string());
        whitelist.push("127.0.0.1".to_string());
        whitelist.push("baidu.com".to_string());
        whitelist.push("qq.com".to_string());
        let r = AppSettings { mixed_port: 2080, whitelist, allow_lan: false };
        assert(r.whitelist.deep_view() =~= default_settings().whitelist);
        r
    }
}

} // verus!
