//! Host-rule configuration, loaded once by the embedding layer and shared
//! read-only by every component.

use vstd::prelude::*;
use vstd::string::StringExecFns;

verus! {

/// One configured rule: `host` names a navigation target for the
/// surrounding application; `xhr` is the substring matched against request
/// URLs to decide diagnostic capture.
pub struct HostEntry {
    pub host: String,
    pub xhr: String,
}

/// Spec-level image of a `HostEntry`.
pub ghost struct HostRule {
    pub host: Seq<char>,
    pub xhr: Seq<char>,
}

impl View for HostEntry {
    type V = HostRule;

    open spec fn view(&self) -> HostRule {
        HostRule { host: self.host@, xhr: self.xhr@ }
    }
}

impl Clone for HostEntry {
    fn clone(&self) -> (r: Self)
        ensures
            r@ == self@,
    {
        HostEntry { host: self.host.clone(), xhr: self.xhr.clone() }
    }
}

/// The configuration: a version tag and the ordered rule set.
pub struct Config {
    pub version: u32,
    pub host: Vec<HostEntry>,
}

/// Spec-level image of a `Config`.
pub ghost struct ConfigView {
    pub version: u32,
    pub host: Seq<HostRule>,
}

impl View for Config {
    type V = ConfigView;

    open spec fn view(&self) -> ConfigView {
        ConfigView { version: self.version, host: self.host@.map_values(|e: HostEntry| e@) }
    }
}

impl Clone for Config {
    fn clone(&self) -> (r: Self)
        ensures
            r@ == self@,
    {
        let mut host: Vec<HostEntry> = Vec::new();
        let mut i: usize = 0;
        while i < self.host.len()
            invariant
                i <= self.host@.len(),
                host@.len() == i as int,
                forall|k: int| 0 <= k < i ==> host@[k]@ == self.host@[k]@,
            decreases self.host@.len() - i,
        {
            host.push(self.host[i].clone());
            i = i + 1;
        }
        let r = Config { version: self.version, host };
        proof {
            assert(r@.host =~= self@.host);
        }
        r
    }
}

/// The rule set a shared optional configuration offers: its rules, or none.
pub open spec fn config_rules(config: Option<Config>) -> Seq<HostRule> {
    match config {
        Some(c) => c@.host,
        None => Seq::empty(),
    }
}

/// The navigation target the embedding layer opens first: the first
/// configured rule's host, or a fixed fallback when nothing is configured.
pub open spec fn start_url_spec(config: Option<Config>) -> Seq<char> {
    match config {
        Some(c) => if c@.host.len() > 0 {
            c@.host[0].host
        } else {
            "https://www.example.com"@
        },
        None => "https://www.example.com"@,
    }
}

/// Pick the navigation target to open first.
pub fn start_url(config: &Option<Config>) -> (r: String)
    ensures
        r@ == start_url_spec(*config),
{
    match config {
        Some(c) => {
            if c.host.len() > 0 {
                c.host[0].host.clone()
            } else {
                String::from_str("https://www.example.com")
            }
        },
        None => String::from_str("https://www.example.com"),
    }
}

} // verus!
