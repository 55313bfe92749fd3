use vstd::prelude::*;

verus! {

/// How the status is shown: the classification of the status bar.
#[derive(Debug, Clone, Copy, PartialEq, Eq, Structural)]
pub enum State {
    Idle,
    Info,
    Good,
    Warning,
    Critical,
}

/// The init system that runs the service.
#[derive(Debug, Clone, Copy, PartialEq, Eq, Structural)]
pub enum DriverType {
    Systemd,
}

/// The settings of a service monitor. A field left `None` takes its default.
#[derive(Debug, Clone)]
pub struct Config {
    pub driver: DriverType,
    /// The service's name, without the `.service` suffix.
    pub service: String,
    /// Template shown while the service is active; `$service` stands for its name.
    pub active_format: Option<String>,
    /// Template shown while the service is not active.
    pub inactive_format: Option<String>,
    pub active_state: Option<State>,
    pub inactive_state: Option<State>,
}

impl Default for Config {
    fn default() -> (r: Config)
        ensures
            r.driver == DriverType::Systemd,
            r.service@ == Seq::<char>::empty(),
            r.active_format is None,
            r.inactive_format is None,
            r.active_state is None,
            r.inactive_state is None,
    {
        Config {
            driver: DriverType::Systemd,
            service: String::new(),
            active_format: None,
            inactive_format: None,
            active_state: None,
            inactive_state: None,
        }
    }
}

/// A classification and the template rendered with it.
#[derive(Debug, Clone)]
pub struct Profile {
    pub state: State,
    pub template: String,
}

/// What one observation of the service shows: its classification and text.
#[derive(Debug, Clone, PartialEq, Eq)]
pub struct RenderedStatus {
    pub state: State,
    pub text: String,
}

/// The template used while the service is active, when none is configured.
pub open spec fn default_active_format() -> Seq<char> {
    seq![' ', '$', 's', 'e', 'r', 'v', 'i', 'c', 'e', ' ', 'a', 'c', 't', 'i', 'v', 'e', ' ']
}

/// The template used while the service is not active, when none is configured.
pub open spec fn default_inactive_format() -> Seq<char> {
    seq![' ', '$', 's', 'e', 'r', 'v', 'i', 'c', 'e', ' ', 'i', 'n', 'a', 'c', 't', 'i', 'v', 'e', ' ']
}

/// The template that `format` configures, or `default` when it is unset.
pub open spec fn format_or(format: Option<String>, default: Seq<char>) -> Seq<char> {
    match format {
        Some(f) => f@,
        None => default,
    }
}

/// The classification that `state` configures, or `default` when it is unset.
pub open spec fn state_or(state: Option<State>, default: State) -> State {
    match state {
        Some(s) => s,
        None => default,
    }
}

impl Config {
    /// The profile shown while the service is active: `State::Idle` and
    /// `" $service active "` unless configured.
    pub fn active_profile(&self) -> (r: Profile)
        ensures
            r.state == state_or(self.active_state, State::Idle),
            r.template@ == format_or(self.active_format, default_active_format()),
    {
        let template = match &self.active_format {
            Some(f) => f.clone(),
            None => {
                proof {
                    reveal_strlit(" $service active ");
                }
                String::from_str(" $service active ")
            },
        };
        assert(template@ =~= format_or(self.active_format, default_active_format()));
        let state = match self.active_state {
            Some(s) => s,
            None => State::Idle,
        };
        Profile { state, template }
    }

    /// The profile shown while the service is not active: `State::Critical`
    /// and `" $service inactive "` unless configured.
    pub fn inactive_profile(&self) -> (r: Profile)
        ensures
            r.state == state_or(self.inactive_state, State::Critical),
            r.template@ == format_or(self.inactive_format, default_inactive_format()),
    {
        let template = match &self.inactive_format {
            Some(f) => f.clone(),
            None => {
                proof {
                    reveal_strlit(" $service inactive ");
                }
                String::from_str(" $service inactive ")
            },
        };
        assert(template@ =~= format_or(self.inactive_format, default_inactive_format()));
        let state = match self.inactive_state {
            Some(s) => s,
            None => State::Critical,
        };
        Profile { state, template }
    }
}

} // verus!
