use std::time::Duration;

use sshdock::config::{Config, NetworkConfig};
use sshdock::matcher::find_profile;
use sshdock::state::{AppliedState, Plan};
use sshdock::system::{ensure_service_started, release_ssh_service, stop_service, StateChange};
use sshdock::wifi::WifiInfo;

fn wifi(ssid: &str) -> WifiInfo {
    WifiInfo { ssid: ssid.to_string(), bssid: None, device: None }
}

fn home_ssh_profile(require_ac_power: bool) -> NetworkConfig {
    NetworkConfig {
        enable_ssh: true,
        require_ac_power,
        prevent_lid_sleep: false,
        prevent_idle_sleep: false,
        ..NetworkConfig::new("Home".to_string())
    }
}

fn config_with(networks: Vec<NetworkConfig>) -> Config {
    Config::new(0, "sshd.service".to_string(), networks)
}

fn request_count(plan: &Plan) -> usize {
    let mut n = usize::from(plan.stop_service.is_some());
    if let Some(e) = &plan.enter {
        n += usize::from(e.start_service.is_some()) + usize::from(e.inhibit.is_some());
    }
    n
}

/// Runs a plan the way the daemon does, with a service that reports `change`
/// on start; returns the services asked to start and to stop.
fn perform(
    state: &mut AppliedState<u32>,
    plan: Plan,
    change: Option<StateChange>,
) -> (Vec<String>, Vec<String>) {
    let mut started = Vec::new();
    let mut stopped = Vec::new();
    if let Some(s) = plan.stop_service {
        stopped.push(s);
    }
    if let Some(entry) = plan.enter {
        let outcome = match &entry.start_service {
            Some(s) => {
                started.push(s.clone());
                change
            }
            None => None,
        };
        let inhibitor = entry.inhibit.as_ref().map(|_| 7u32);
        state.enter(entry, outcome, inhibitor);
    }
    (started, stopped)
}

#[test]
fn default_values() {
    assert!(sshdock::config::default_true());
    assert_eq!(sshdock::config::default_poll_interval(), 5);
    assert_eq!(sshdock::config::default_ssh_service(), "sshd.service");
}

#[test]
fn zero_poll_interval_becomes_default() {
    let c = config_with(vec![]);
    assert_eq!(c.poll_interval(), Duration::from_secs(5));
    let c = Config::new(12, "x.service".to_string(), vec![]);
    assert_eq!(c.poll_interval(), Duration::from_secs(12));
    assert_eq!(c.ssh_service(), "x.service");
    assert!(c.networks().is_empty());
}

#[test]
fn ssid_must_match_exactly() {
    let p = NetworkConfig::new("Home".to_string());
    assert!(p.matches(&wifi("Home")));
    assert!(!p.matches(&wifi("home")));
    assert!(!p.matches(&wifi("Home2")));
}

#[test]
fn interface_constraint() {
    let p = NetworkConfig { interface: Some("wlan0".to_string()), ..NetworkConfig::new("Home".to_string()) };
    assert!(!p.matches(&wifi("Home")));
    let mut w = wifi("Home");
    w.device = Some("wlan1".to_string());
    assert!(!p.matches(&w));
    w.device = Some("wlan0".to_string());
    assert!(p.matches(&w));
}

#[test]
fn bssid_constraint_ignores_ascii_case() {
    let p = NetworkConfig { bssid: Some("AA:bb:CC:01".to_string()), ..NetworkConfig::new("Home".to_string()) };
    assert!(!p.matches(&wifi("Home")));
    let mut w = wifi("Home");
    w.bssid = Some("aa:BB:cc:01".to_string());
    assert!(p.matches(&w));
    w.bssid = Some("aa:BB:cc:02".to_string());
    assert!(!p.matches(&w));
    w.bssid = Some("aa:BB:cc:011".to_string());
    assert!(!p.matches(&w));
}

#[test]
fn first_matching_profile_wins() {
    let office = NetworkConfig::new("Office".to_string());
    let home_a = NetworkConfig { name: Some("a".to_string()), ..NetworkConfig::new("Home".to_string()) };
    let home_b = NetworkConfig { name: Some("b".to_string()), ..NetworkConfig::new("Home".to_string()) };
    let ps = vec![office, home_a, home_b];
    assert_eq!(find_profile(&ps, &wifi("Home")), Some(1));
    assert_eq!(find_profile(&ps, &wifi("Office")), Some(0));
    assert_eq!(find_profile(&ps, &wifi("Cafe")), None);
    assert_eq!(find_profile(&[], &wifi("Home")), None);
}

#[test]
fn names_and_service() {
    let c = config_with(vec![]);
    let p = NetworkConfig::new("Home".to_string());
    assert_eq!(p.display_name(), "Home");
    assert_eq!(p.ssh_service(&c), "sshd.service");
    let q = NetworkConfig {
        name: Some("Desk".to_string()),
        ssh_service: Some("ssh.service".to_string()),
        ..NetworkConfig::new("Home".to_string())
    };
    assert_eq!(q.display_name(), "Desk");
    assert_eq!(q.ssh_service(&c), "ssh.service");
    assert!(q.enable_ssh() && q.stop_ssh_on_disconnect() && q.requires_ac_power());
}

#[test]
fn inhibitor_targets_are_sorted_and_joined() {
    let mut p = NetworkConfig::new("Home".to_string());
    assert_eq!(p.inhibitor_targets().as_deref(), Some("handle-lid-switch:sleep"));
    p.prevent_idle_sleep = false;
    assert_eq!(p.inhibitor_targets().as_deref(), Some("handle-lid-switch"));
    p.prevent_lid_sleep = false;
    assert_eq!(p.inhibitor_targets(), None);
    p.prevent_idle_sleep = true;
    assert_eq!(p.inhibitor_targets().as_deref(), Some("sleep"));
}

#[test]
fn service_decisions() {
    assert_eq!(ensure_service_started(true), StateChange::AlreadyActive);
    assert_eq!(ensure_service_started(false), StateChange::Changed);
    assert_eq!(stop_service(true), StateChange::Changed);
    assert_eq!(stop_service(false), StateChange::AlreadyActive);
    assert_eq!(release_ssh_service("sshd.service", true).as_deref(), Some("sshd.service"));
    assert_eq!(release_ssh_service("sshd.service", false), None);
}

#[test]
fn home_profile_is_entered_and_service_started() {
    let config = config_with(vec![home_ssh_profile(false)]);
    let mut state: AppliedState<u32> = AppliedState::new();
    let plan = state.tick(&config, &Some(wifi("Home")), false);
    assert!(plan.stop_service.is_none());
    let entry = plan.enter.as_ref().unwrap();
    assert_eq!(entry.profile_idx, 0);
    assert_eq!(entry.start_service.as_deref(), Some("sshd.service"));
    assert_eq!(entry.inhibit, None);
    let (started, stopped) = perform(&mut state, plan, Some(StateChange::Changed));
    assert_eq!(started, vec!["sshd.service".to_string()]);
    assert!(stopped.is_empty());
    assert_eq!(state.active_profile(), Some(0));
}

#[test]
fn disconnect_stops_a_service_this_process_started() {
    let config = config_with(vec![home_ssh_profile(false)]);
    let mut state: AppliedState<u32> = AppliedState::new();
    let plan = state.tick(&config, &Some(wifi("Home")), false);
    perform(&mut state, plan, Some(StateChange::Changed));
    assert!(state.owns_service());
    let plan = state.tick(&config, &None, false);
    assert!(plan.enter.is_none());
    assert_eq!(plan.stop_service.as_deref(), Some("sshd.service"));
    assert!(state.is_idle());
}

#[test]
fn disconnect_keeps_a_service_that_was_already_running() {
    let config = config_with(vec![home_ssh_profile(false)]);
    let mut state: AppliedState<u32> = AppliedState::new();
    let plan = state.tick(&config, &Some(wifi("Home")), false);
    perform(&mut state, plan, Some(StateChange::AlreadyActive));
    assert!(!state.owns_service());
    let plan = state.tick(&config, &None, false);
    assert_eq!(request_count(&plan), 0);
    assert!(state.is_idle());
}

#[test]
fn disconnect_keeps_service_when_profile_says_so() {
    let profile = NetworkConfig { stop_ssh_on_disconnect: false, ..home_ssh_profile(false) };
    let config = config_with(vec![profile]);
    let mut state: AppliedState<u32> = AppliedState::new();
    let plan = state.tick(&config, &Some(wifi("Home")), false);
    perform(&mut state, plan, Some(StateChange::Changed));
    let plan = state.clear();
    assert_eq!(plan.stop_service, None);
}

#[test]
fn failed_start_holds_no_service() {
    let config = config_with(vec![home_ssh_profile(false)]);
    let mut state: AppliedState<u32> = AppliedState::new();
    let plan = state.tick(&config, &Some(wifi("Home")), false);
    perform(&mut state, plan, None);
    assert_eq!(state.active_profile(), Some(0));
    assert!(!state.owns_service());
    assert_eq!(request_count(&state.clear()), 0);
}

#[test]
fn profile_needing_ac_is_skipped_on_battery() {
    let config = config_with(vec![home_ssh_profile(true)]);
    let mut state: AppliedState<u32> = AppliedState::new();
    let plan = state.tick(&config, &Some(wifi("Home")), false);
    assert_eq!(request_count(&plan), 0);
    assert!(state.is_idle());
    let plan = state.tick(&config, &Some(wifi("Home")), true);
    assert!(plan.enter.is_some());
}

#[test]
fn profile_needing_ac_is_left_when_charger_unplugged() {
    let config = config_with(vec![home_ssh_profile(true)]);
    let mut state: AppliedState<u32> = AppliedState::new();
    let plan = state.tick(&config, &Some(wifi("Home")), true);
    perform(&mut state, plan, Some(StateChange::Changed));
    assert_eq!(state.active_profile(), Some(0));
    let plan = state.tick(&config, &Some(wifi("Home")), false);
    assert_eq!(plan.stop_service.as_deref(), Some("sshd.service"));
    assert!(state.is_idle());
}

#[test]
fn second_tick_on_same_profile_does_nothing() {
    let config = config_with(vec![NetworkConfig { require_ac_power: false, ..NetworkConfig::new("Home".to_string()) }]);
    let mut state: AppliedState<u32> = AppliedState::new();
    let plan = state.tick(&config, &Some(wifi("Home")), false);
    assert_eq!(request_count(&plan), 2);
    perform(&mut state, plan, Some(StateChange::Changed));
    let plan = state.tick(&config, &Some(wifi("Home")), false);
    assert_eq!(request_count(&plan), 0);
    assert_eq!(state.active_profile(), Some(0));
    assert!(state.owns_service());
}

#[test]
fn apply_twice_does_nothing_the_second_time() {
    let config = config_with(vec![home_ssh_profile(false)]);
    let mut state: AppliedState<u32> = AppliedState::new();
    let plan = state.apply_profile(0, &config.networks[0], &config);
    perform(&mut state, plan, Some(StateChange::Changed));
    let plan = state.apply_profile(0, &config.networks[0], &config);
    assert!(plan.stop_service.is_none() && plan.enter.is_none());
}

#[test]
fn clear_when_idle_does_nothing() {
    let mut state: AppliedState<u32> = AppliedState::new();
    let plan = state.clear();
    assert_eq!(request_count(&plan), 0);
    assert!(state.is_idle());
}

#[test]
fn switching_profiles_leaves_then_enters() {
    let office = NetworkConfig {
        ssh_service: Some("ssh.service".to_string()),
        ..home_ssh_profile(false)
    };
    let office = NetworkConfig { ssid: "Office".to_string(), ..office };
    let config = config_with(vec![home_ssh_profile(false), office]);
    let mut state: AppliedState<u32> = AppliedState::new();
    let plan = state.tick(&config, &Some(wifi("Home")), true);
    perform(&mut state, plan, Some(StateChange::Changed));
    let plan = state.tick(&config, &Some(wifi("Office")), true);
    assert_eq!(plan.stop_service.as_deref(), Some("sshd.service"));
    let (started, _) = perform(&mut state, plan, Some(StateChange::Changed));
    assert_eq!(started, vec!["ssh.service".to_string()]);
    assert_eq!(state.active_profile(), Some(1));
    let plan = state.tick(&config, &Some(wifi("Cafe")), true);
    assert_eq!(plan.stop_service.as_deref(), Some("ssh.service"));
    assert!(state.is_idle());
}

#[test]
fn default_state_is_idle() {
    let state: AppliedState<u32> = AppliedState::default();
    assert!(state.is_idle());
    assert_eq!(state.active_profile(), None);
    assert!(!state.owns_service());
}
