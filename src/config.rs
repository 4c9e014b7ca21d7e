use std::time::Duration;

use vstd::prelude::*;
use vstd::string::*;

use crate::wifi::WifiInfo;

verus! {

/// Poll interval used when the configuration gives none, or gives zero.
pub const DEFAULT_POLL_INTERVAL_SECS: u64 = 5;

/// The character sequence of an optional string.
pub open spec fn opt_view(o: Option<String>) -> Option<Seq<char>> {
    match o {
        Some(s) => Some(s@),
        None => None,
    }
}

/// The code of `c` after ASCII lower-casing; other characters keep their code.
pub open spec fn ascii_lower_code(c: char) -> u32 {
    if 65 <= (c as u32) && (c as u32) <= 90 {
        (c as u32 + 32) as u32
    } else {
        c as u32
    }
}

/// Two texts are equal once ASCII letters are lower-cased on both sides.
pub open spec fn eq_ignore_ascii_case(a: Seq<char>, b: Seq<char>) -> bool {
    &&& a.len() == b.len()
    &&& forall|i: int| 0 <= i < a.len() ==> ascii_lower_code(#[trigger] a[i]) == ascii_lower_code(b[i])
}

/// The daemon-wide settings and the ordered list of network profiles.
#[derive(Debug)]
pub struct Config {
    pub poll_interval_secs: u64,
    pub ssh_service: String,
    pub networks: Vec<NetworkConfig>,
}

/// A profile: which network it applies to and what to do while it is active.
#[derive(Debug, Clone)]
pub struct NetworkConfig {
    pub ssid: String,
    pub name: Option<String>,
    pub bssid: Option<String>,
    pub interface: Option<String>,
    pub enable_ssh: bool,
    pub stop_ssh_on_disconnect: bool,
    pub prevent_lid_sleep: bool,
    pub prevent_idle_sleep: bool,
    pub ssh_service: Option<String>,
    pub require_ac_power: bool,
}

/// Named result of `Duration::from_secs`.
pub uninterp spec fn duration_from_secs(secs: u64) -> Duration;

/// Relies on `Duration::from_secs`: a duration of exactly `secs` seconds.
#[verifier::external_body]
fn secs_to_duration(secs: u64) -> (r: Duration)
    ensures
        r == duration_from_secs(secs),
{
    Duration::from_secs(secs)
}

pub fn default_true() -> (r: bool)
    ensures
        r,
{
    true
}

pub fn default_poll_interval() -> (r: u64)
    ensures
        r == DEFAULT_POLL_INTERVAL_SECS,
{
    DEFAULT_POLL_INTERVAL_SECS
}

pub open spec fn default_ssh_service_spec() -> Seq<char> {
    "sshd.service"@
}

pub fn default_ssh_service() -> (r: String)
    ensures
        r@ == default_ssh_service_spec(),
{
    String::from_str("sshd.service")
}

impl Config {
    /// A configuration whose poll interval is never zero.
    pub open spec fn wf(&self) -> bool {
        self.poll_interval_secs > 0
    }

    /// Builds a configuration; a zero poll interval stands for the default one.
    pub fn new(poll_interval_secs: u64, ssh_service: String, networks: Vec<NetworkConfig>) -> (r:
        Config)
        ensures
            r.wf(),
            r.poll_interval_secs == (if poll_interval_secs == 0 {
                DEFAULT_POLL_INTERVAL_SECS
            } else {
                poll_interval_secs
            }),
            r.ssh_service@ == ssh_service@,
            r.networks@ == networks@,
    {
        let secs = if poll_interval_secs == 0 {
            default_poll_interval()
        } else {
            poll_interval_secs
        };
        Config { poll_interval_secs: secs, ssh_service, networks }
    }

    pub fn poll_interval(&self) -> (r: Duration)
        ensures
            r == duration_from_secs(self.poll_interval_secs),
    {
        secs_to_duration(self.poll_interval_secs)
    }

    pub fn ssh_service(&self) -> (r: &str)
        ensures
            r@ == self.ssh_service@,
    {
        self.ssh_service.as_str()
    }

    pub fn networks(&self) -> (r: &[NetworkConfig])
        ensures
            r@ == self.networks@,
    {
        self.networks.as_slice()
    }
}

/// Whether profile `p` applies to the association `w`.
pub open spec fn profile_matches(p: NetworkConfig, w: WifiInfo) -> bool {
    &&& p.ssid@ == w.ssid@
    &&& match p.interface {
        Some(e) => match w.device {
            Some(a) => e@ == a@,
            None => false,
        },
        None => true,
    }
    &&& match p.bssid {
        Some(e) => match w.bssid {
            Some(a) => eq_ignore_ascii_case(e@, a@),
            None => false,
        },
        None => true,
    }
}

pub open spec fn display_name_spec(p: NetworkConfig) -> Seq<char> {
    match p.name {
        Some(n) => n@,
        None => p.ssid@,
    }
}

/// The service a profile manages: its own override, else the shared default.
pub open spec fn service_name_spec(p: NetworkConfig, c: Config) -> Seq<char> {
    match p.ssh_service {
        Some(s) => s@,
        None => c.ssh_service@,
    }
}

pub open spec fn lid_token() -> Seq<char> {
    "handle-lid-switch"@
}

pub open spec fn idle_token() -> Seq<char> {
    "sleep"@
}

/// The inhibitor targets: the requested tokens, sorted, without repeats, joined by ':'.
/// No token means no inhibitor.
pub open spec fn inhibitor_targets_spec(lid: bool, idle: bool) -> Option<Seq<char>> {
    if lid && idle {
        Some(lid_token() + ":"@ + idle_token())
    } else if lid {
        Some(lid_token())
    } else if idle {
        Some(idle_token())
    } else {
        None
    }
}

/// Compares two texts, ASCII letters without regard to case.
pub fn str_eq_ignore_ascii_case(a: &str, b: &str) -> (r: bool)
    ensures
        r == eq_ignore_ascii_case(a@, b@),
{
    let n = a.unicode_len();
    if n != b.unicode_len() {
        return false;
    }
    let mut i: usize = 0;
    while i < n
        invariant
            n == a@.len(),
            n == b@.len(),
            i <= n,
            forall|k: int| 0 <= k < i ==> ascii_lower_code(#[trigger] a@[k]) == ascii_lower_code(
                b@[k],
            ),
        decreases n - i,
    {
        let x = a.get_char(i) as u32;
        let y = b.get_char(i) as u32;
        let lx: u32 = if 65 <= x && x <= 90 {
            x + 32
        } else {
            x
        };
        let ly: u32 = if 65 <= y && y <= 90 {
            y + 32
        } else {
            y
        };
        if lx != ly {
            assert(ascii_lower_code(a@[i as int]) != ascii_lower_code(b@[i as int]));
            return false;
        }
        i = i + 1;
    }
    true
}

impl NetworkConfig {
    /// A profile for `ssid` with every toggle on and no further constraint.
    pub fn new(ssid: String) -> (r: NetworkConfig)
        ensures
            r.ssid@ == ssid@,
            r.name is None,
            r.bssid is None,
            r.interface is None,
            r.ssh_service is None,
            r.enable_ssh,
            r.stop_ssh_on_disconnect,
            r.prevent_lid_sleep,
            r.prevent_idle_sleep,
            r.require_ac_power,
    {
        NetworkConfig {
            ssid,
            name: None,
            bssid: None,
            interface: None,
            enable_ssh: default_true(),
            stop_ssh_on_disconnect: default_true(),
            prevent_lid_sleep: default_true(),
            prevent_idle_sleep: default_true(),
            ssh_service: None,
            require_ac_power: default_true(),
        }
    }

    pub fn display_name(&self) -> (r: &str)
        ensures
            r@ == display_name_spec(*self),
    {
        match &self.name {
            Some(n) => n.as_str(),
            None => self.ssid.as_str(),
        }
    }

    pub fn matches(&self, wifi: &WifiInfo) -> (r: bool)
        ensures
            r == profile_matches(*self, *wifi),
    {
        if !(self.ssid == wifi.ssid) {
            return false;
        }
        if let Some(expected) = &self.interface {
            if let Some(actual) = &wifi.device {
                if !(*expected == *actual) {
                    return false;
                }
            } else {
                return false;
            }
        }
        if let Some(expected) = &self.bssid {
            match &wifi.bssid {
                Some(actual) => {
                    if !str_eq_ignore_ascii_case(expected.as_str(), actual.as_str()) {
                        return false;
                    }
                },
                None => return false,
            }
        }
        true
    }

    pub fn ssh_service<'a>(&'a self, config: &'a Config) -> (r: &'a str)
        ensures
            r@ == service_name_spec(*self, *config),
    {
        match &self.ssh_service {
            Some(s) => s.as_str(),
            None => config.ssh_service(),
        }
    }

    pub fn inhibitor_targets(&self) -> (r: Option<String>)
        ensures
            opt_view(r) == inhibitor_targets_spec(self.prevent_lid_sleep, self.prevent_idle_sleep),
    {
        if self.prevent_lid_sleep && self.prevent_idle_sleep {
            let mut s = String::from_str("handle-lid-switch");
            s.append(":");
            s.append("sleep");
            Some(s)
        } else if self.prevent_lid_sleep {
            Some(String::from_str("handle-lid-switch"))
        } else if self.prevent_idle_sleep {
            Some(String::from_str("sleep"))
        } else {
            None
        }
    }

    pub fn enable_ssh(&self) -> (r: bool)
        ensures
            r == self.enable_ssh,
    {
        self.enable_ssh
    }

    pub fn stop_ssh_on_disconnect(&self) -> (r: bool)
        ensures
            r == self.stop_ssh_on_disconnect,
    {
        self.stop_ssh_on_disconnect
    }

    pub fn requires_ac_power(&self) -> (r: bool)
        ensures
            r == self.require_ac_power,
    {
        self.require_ac_power
    }
}

/// Profiles that request the same sleep prevention get the same inhibitor
/// targets, and both kinds together always give the two tokens in one fixed
/// order.
pub proof fn lemma_inhibitor_targets_deterministic(a: NetworkConfig, b: NetworkConfig)
    requires
        a.prevent_lid_sleep == b.prevent_lid_sleep,
        a.prevent_idle_sleep == b.prevent_idle_sleep,
    ensures
        inhibitor_targets_spec(a.prevent_lid_sleep, a.prevent_idle_sleep) == inhibitor_targets_spec(
            b.prevent_lid_sleep,
            b.prevent_idle_sleep,
        ),
        a.prevent_lid_sleep && a.prevent_idle_sleep ==> inhibitor_targets_spec(
            a.prevent_lid_sleep,
            a.prevent_idle_sleep,
        ) == Some("handle-lid-switch:sleep"@),
{
    if a.prevent_lid_sleep && a.prevent_idle_sleep {
        reveal_strlit("handle-lid-switch:sleep");
        reveal_strlit("handle-lid-switch");
        reveal_strlit(":");
        reveal_strlit("sleep");
        assert(lid_token() + ":"@ + idle_token() =~= "handle-lid-switch:sleep"@);
    }
}

} // verus!
