use vstd::prelude::*;
use vstd::string::*;

use crate::config::{
    display_name_spec, inhibitor_targets_spec, opt_view, service_name_spec, Config, NetworkConfig,
};
use crate::matcher::{find_profile, first_match};
use crate::system::{release_ssh_service, StateChange};
use crate::wifi::WifiInfo;

verus! {

/// A service held by the active profile, and whether this process has to
/// stop it when the profile is left.
pub struct ServiceView {
    pub name: Seq<char>,
    pub stop_on_disconnect: bool,
}

/// What is applied while a profile is active.
pub struct ActiveView {
    pub profile_idx: usize,
    pub profile_name: Seq<char>,
    pub ssh: Option<ServiceView>,
    pub has_inhibitor: bool,
}

/// The work needed to enter a profile, as plain values.
pub struct EntryView {
    pub profile_idx: usize,
    pub profile_name: Seq<char>,
    pub start_service: Option<Seq<char>>,
    pub stop_on_disconnect: bool,
    pub inhibit: Option<Seq<char>>,
}

/// The resource operations that one step asks for, in order: first stop the
/// service of the profile that is left, then enter the new profile.
pub struct PlanView {
    pub stop_service: Option<Seq<char>>,
    pub enter: Option<EntryView>,
}

/// A service this process found running or started itself.
pub struct SshHandle {
    service_name: String,
    stop_on_disconnect: bool,
}

impl SshHandle {
    /// Lets the handle go; yields the service to stop, if this process is
    /// responsible for stopping it.
    fn release(self) -> (r: Option<String>)
        ensures
            opt_view(r) == (if self.stop_on_disconnect {
                Some(self.service_name@)
            } else {
                None
            }),
    {
        release_ssh_service(self.service_name.as_str(), self.stop_on_disconnect)
    }
}

struct ActiveContext<H> {
    profile_idx: usize,
    profile_name: String,
    ssh: Option<SshHandle>,
    inhibitor: Option<H>,
}

impl<H> ActiveContext<H> {
    spec fn view(&self) -> ActiveView {
        ActiveView {
            profile_idx: self.profile_idx,
            profile_name: self.profile_name@,
            ssh: match self.ssh {
                Some(h) => Some(
                    ServiceView { name: h.service_name@, stop_on_disconnect: h.stop_on_disconnect },
                ),
                None => None,
            },
            has_inhibitor: self.inhibitor is Some,
        }
    }

    /// Leaves the context: the inhibitor handle is dropped here, and the
    /// service to stop, if any, is handed back.
    fn release(self) -> (r: Option<String>)
        ensures
            opt_view(r) == release_spec(Some(self.view())),
    {
        let ActiveContext { profile_idx: _, profile_name: _, ssh, inhibitor: _ } = self;
        match ssh {
            Some(h) => h.release(),
            None => None,
        }
    }
}

/// The request to enter a profile: the service to start and the inhibitor
/// targets to acquire, each when the profile asks for it.
#[derive(Debug)]
pub struct Entry {
    pub profile_idx: usize,
    pub profile_name: String,
    pub start_service: Option<String>,
    pub stop_on_disconnect: bool,
    pub inhibit: Option<String>,
}

impl View for Entry {
    type V = EntryView;

    open spec fn view(&self) -> EntryView {
        EntryView {
            profile_idx: self.profile_idx,
            profile_name: self.profile_name@,
            start_service: opt_view(self.start_service),
            stop_on_disconnect: self.stop_on_disconnect,
            inhibit: opt_view(self.inhibit),
        }
    }
}

/// The resource operations that the caller is to perform for one step.
#[derive(Debug)]
pub struct Plan {
    pub stop_service: Option<String>,
    pub enter: Option<Entry>,
}

impl View for Plan {
    type V = PlanView;

    open spec fn view(&self) -> PlanView {
        PlanView {
            stop_service: opt_view(self.stop_service),
            enter: match self.enter {
                Some(e) => Some(e@),
                None => None,
            },
        }
    }
}

/// The one piece of mutable state: idle, or the profile that is applied with
/// the handles it holds. `H` is the sleep-inhibitor handle; dropping it
/// releases the inhibitor.
pub struct AppliedState<H> {
    active: Option<ActiveContext<H>>,
}

impl<H> View for AppliedState<H> {
    type V = Option<ActiveView>;

    closed spec fn view(&self) -> Option<ActiveView> {
        match self.active {
            Some(c) => Some(c.view()),
            None => None,
        }
    }
}

pub open spec fn empty_plan() -> PlanView {
    PlanView { stop_service: None, enter: None }
}

/// How many resource operations a plan asks for.
pub open spec fn request_count(p: PlanView) -> nat {
    (if p.stop_service is Some {
        1nat
    } else {
        0nat
    }) + match p.enter {
        Some(e) => (if e.start_service is Some {
            1nat
        } else {
            0nat
        }) + (if e.inhibit is Some {
            1nat
        } else {
            0nat
        }),
        None => 0nat,
    }
}

/// The service to stop when leaving `s`: only one that this process started
/// and is configured to stop.
pub open spec fn release_spec(s: Option<ActiveView>) -> Option<Seq<char>> {
    match s {
        Some(a) => match a.ssh {
            Some(h) => if h.stop_on_disconnect {
                Some(h.name)
            } else {
                None
            },
            None => None,
        },
        None => None,
    }
}

pub open spec fn entry_spec(idx: usize, p: NetworkConfig, c: Config) -> EntryView {
    EntryView {
        profile_idx: idx,
        profile_name: display_name_spec(p),
        start_service: if p.enable_ssh {
            Some(service_name_spec(p, c))
        } else {
            None
        },
        stop_on_disconnect: p.stop_ssh_on_disconnect,
        inhibit: inhibitor_targets_spec(p.prevent_lid_sleep, p.prevent_idle_sleep),
    }
}

pub open spec fn is_active_on(s: Option<ActiveView>, idx: usize) -> bool {
    s matches Some(a) && a.profile_idx == idx
}

/// Leaving whatever is applied: the state is idle at once.
pub open spec fn clear_spec(s: Option<ActiveView>) -> (Option<ActiveView>, PlanView) {
    (None, PlanView { stop_service: release_spec(s), enter: None })
}

/// Applying profile `idx`: nothing when it is already the active one; else
/// leave the old profile, then enter the new one.
pub open spec fn apply_spec(s: Option<ActiveView>, idx: usize, p: NetworkConfig, c: Config) -> (
    Option<ActiveView>,
    PlanView,
) {
    if is_active_on(s, idx) {
        (s, empty_plan())
    } else {
        (None, PlanView { stop_service: release_spec(s), enter: Some(entry_spec(idx, p, c)) })
    }
}

/// The context recorded after entering: a service handle whenever the start
/// succeeded, responsible for stopping only when this process started it.
pub open spec fn enter_spec(e: EntryView, started: Option<StateChange>, has_inhibitor: bool) -> ActiveView {
    ActiveView {
        profile_idx: e.profile_idx,
        profile_name: e.profile_name,
        ssh: match e.start_service {
            Some(n) => match started {
                Some(StateChange::Changed) => Some(
                    ServiceView { name: n, stop_on_disconnect: e.stop_on_disconnect },
                ),
                Some(StateChange::AlreadyActive) => Some(
                    ServiceView { name: n, stop_on_disconnect: false },
                ),
                None => None,
            },
            None => None,
        },
        has_inhibitor,
    }
}

/// One poll: the first profile that applies is applied, unless it needs AC
/// power and there is none; otherwise whatever is applied is left.
pub open spec fn tick_spec(s: Option<ActiveView>, c: Config, wifi: Option<WifiInfo>, ac_online: bool) -> (
    Option<ActiveView>,
    PlanView,
) {
    match wifi {
        Some(w) => match first_match(c.networks@, w) {
            Some(i) => if c.networks@[i].require_ac_power && !ac_online {
                clear_spec(s)
            } else {
                apply_spec(s, i as usize, c.networks@[i], c)
            },
            None => clear_spec(s),
        },
        None => clear_spec(s),
    }
}

/// The state after a step and the entry it asked for, if any, was carried out.
pub open spec fn after_entry(
    s: Option<ActiveView>,
    p: PlanView,
    started: Option<StateChange>,
    has_inhibitor: bool,
) -> Option<ActiveView> {
    match p.enter {
        Some(e) => Some(enter_spec(e, started, has_inhibitor)),
        None => s,
    }
}

impl<H> AppliedState<H> {
    pub fn new() -> (r: Self)
        ensures
            r@ is None,
    {
        AppliedState { active: None }
    }

    pub fn is_idle(&self) -> (r: bool)
        ensures
            r == self@ is None,
    {
        self.active.is_none()
    }

    /// The index of the active profile, if any.
    pub fn active_profile(&self) -> (r: Option<usize>)
        ensures
            match r {
                Some(i) => is_active_on(self@, i),
                None => self@ is None,
            },
    {
        match &self.active {
            Some(ctx) => Some(ctx.profile_idx),
            None => None,
        }
    }

    /// Whether leaving the active profile would stop its service.
    pub fn owns_service(&self) -> (r: bool)
        ensures
            r == release_spec(self@) is Some,
    {
        match &self.active {
            Some(ctx) => match &ctx.ssh {
                Some(h) => h.stop_on_disconnect,
                None => false,
            },
            None => false,
        }
    }

    /// Leaves the active profile, if any. The state is idle afterwards; the
    /// plan names the service to stop, if this process is responsible for it.
    pub fn clear(&mut self) -> (r: Plan)
        ensures
            (final(self)@, r@) == clear_spec(old(self)@),
    {
        let stop_service = match self.active.take() {
            Some(ctx) => ctx.release(),
            None => None,
        };
        Plan { stop_service, enter: None }
    }

    /// Moves to profile `idx`. Re-applying the active profile does nothing;
    /// otherwise the old profile is left and the plan asks to enter the new
    /// one, which `enter` then records.
    pub fn apply_profile(&mut self, idx: usize, profile: &NetworkConfig, config: &Config) -> (r:
        Plan)
        ensures
            (final(self)@, r@) == apply_spec(old(self)@, idx, *profile, *config),
    {
        let already_active = match &self.active {
            Some(ctx) => ctx.profile_idx == idx,
            None => false,
        };
        if already_active {
            return Plan { stop_service: None, enter: None };
        }
        let left = self.clear();
        let start_service = if profile.enable_ssh() {
            Some(String::from_str(profile.ssh_service(config)))
        } else {
            None
        };
        let entry = Entry {
            profile_idx: idx,
            profile_name: String::from_str(profile.display_name()),
            start_service,
            stop_on_disconnect: profile.stop_ssh_on_disconnect(),
            inhibit: profile.inhibitor_targets(),
        };
        Plan { stop_service: left.stop_service, enter: Some(entry) }
    }

    /// Records the profile entered with the outcome of its resource requests:
    /// `started` is what starting the service did (`None` when it was not
    /// asked for or failed), `inhibitor` the handle acquired, if any.
    pub fn enter(&mut self, entry: Entry, started: Option<StateChange>, inhibitor: Option<H>)
        requires
            old(self)@ is None,
        ensures
            final(self)@ == Some(enter_spec(entry@, started, inhibitor is Some)),
    {
        let Entry { profile_idx, profile_name, start_service, stop_on_disconnect, inhibit: _ } =
            entry;
        let ssh = match start_service {
            Some(name) => match started {
                Some(StateChange::Changed) => Some(
                    SshHandle { service_name: name, stop_on_disconnect },
                ),
                Some(StateChange::AlreadyActive) => Some(
                    SshHandle { service_name: name, stop_on_disconnect: false },
                ),
                None => None,
            },
            None => None,
        };
        self.active = Some(ActiveContext { profile_idx, profile_name, ssh, inhibitor });
    }

    /// One poll with the observed association and AC power state.
    pub fn tick(&mut self, config: &Config, wifi: &Option<WifiInfo>, ac_online: bool) -> (r: Plan)
        ensures
            (final(self)@, r@) == tick_spec(old(self)@, *config, *wifi, ac_online),
    {
        match wifi {
            Some(w) => match find_profile(config.networks(), w) {
                Some(i) => {
                    let profile = &config.networks[i];
                    if profile.requires_ac_power() && !ac_online {
                        self.clear()
                    } else {
                        self.apply_profile(i, profile, config)
                    }
                },
                None => self.clear(),
            },
            None => self.clear(),
        }
    }
}

impl<H> Default for AppliedState<H> {
    fn default() -> (r: Self)
        ensures
            r@ is None,
    {
        AppliedState::new()
    }
}

/// Applying the same profile twice in a row: the second call asks for no
/// resource operation and changes nothing, whatever the first one obtained.
pub proof fn lemma_reapply_is_noop(
    s: Option<ActiveView>,
    idx: usize,
    p: NetworkConfig,
    c: Config,
    started: Option<StateChange>,
    has_inhibitor: bool,
)
    ensures
        ({
            let (s1, plan1) = apply_spec(s, idx, p, c);
            let s2 = after_entry(s1, plan1, started, has_inhibitor);
            let (s3, plan2) = apply_spec(s2, idx, p, c);
            s3 == s2 && plan2 == empty_plan() && request_count(plan2) == 0
        }),
{
}

/// Leaving when idle asks for no resource operation and stays idle.
pub proof fn lemma_clear_when_idle()
    ensures
        clear_spec(None) == (None::<ActiveView>, empty_plan()),
        request_count(clear_spec(None).1) == 0,
{
}

/// A service that was already running is never stopped on leaving; one that
/// this process started is stopped exactly when the profile says so.
pub proof fn lemma_service_responsibility(
    idx: usize,
    p: NetworkConfig,
    c: Config,
    has_inhibitor: bool,
)
    requires
        p.enable_ssh,
    ensures
        release_spec(
            Some(enter_spec(entry_spec(idx, p, c), Some(StateChange::AlreadyActive), has_inhibitor)),
        ) is None,
        release_spec(
            Some(enter_spec(entry_spec(idx, p, c), Some(StateChange::Changed), has_inhibitor)),
        ) == (if p.stop_ssh_on_disconnect {
            Some(service_name_spec(p, c))
        } else {
            None
        }),
{
}

/// A profile that needs AC power, matched while on battery, leaves the state
/// idle and enters nothing.
pub proof fn lemma_ac_gating(s: Option<ActiveView>, c: Config, w: WifiInfo)
    requires
        first_match(c.networks@, w) matches Some(i) && c.networks@[i].require_ac_power,
    ensures
        tick_spec(s, c, Some(w), false).0 is None,
        tick_spec(s, c, Some(w), false).1.enter is None,
{
}

/// Two polls with the same observation: the second asks for no resource
/// operation and changes nothing, whatever the first one obtained.
pub proof fn lemma_repeated_tick_is_noop(
    s: Option<ActiveView>,
    c: Config,
    wifi: Option<WifiInfo>,
    ac_online: bool,
    started: Option<StateChange>,
    has_inhibitor: bool,
)
    ensures
        ({
            let (s1, plan1) = tick_spec(s, c, wifi, ac_online);
            let s2 = after_entry(s1, plan1, started, has_inhibitor);
            let (s3, plan2) = tick_spec(s2, c, wifi, ac_online);
            s3 == s2 && request_count(plan2) == 0
        }),
{
}

} // verus!
