use vstd::prelude::*;
use vstd::string::*;
use vstd::utf8::is_ascii_chars;

use crate::config::{
    default_active_format, default_inactive_format, format_or, state_or, Config, Profile,
    RenderedStatus, State,
};
use crate::encode::{unit_path, unit_path_of};
use crate::error::{Error, Operation};
use crate::render::{render, render_template};

verus! {

broadcast use vstd::string::group_string_axioms;

/// Where a monitor stands. Each phase but `Failed` waits for the outcome of
/// the one bus operation that the monitor last asked for.
#[derive(Debug, Clone, Copy, PartialEq, Eq, Structural)]
pub enum Phase {
    /// The system bus connection is being opened.
    Connecting,
    /// The proxy for the unit's object path is being built.
    BuildingProxy,
    /// The subscription to `ActiveState` changes is being opened.
    Subscribing,
    /// `ActiveState` is being read.
    Querying,
    /// The status is being published; `true` when the service is active.
    Publishing(bool),
    /// Waiting for the next change of `ActiveState`.
    Waiting,
    /// The monitor stopped on this error; it does nothing more.
    Failed(Error),
}

/// The outcome of a bus operation, or of publishing, as the caller reports it.
#[derive(Debug, Clone, PartialEq, Eq)]
pub enum Event {
    Connected,
    ConnectFailed,
    ProxyBuilt,
    ProxyFailed,
    Subscribed,
    SubscribeFailed,
    /// The value read from the unit's `ActiveState` property.
    ActiveState(String),
    ReadFailed,
    Published,
    /// The subscription delivered a change.
    Changed,
    /// The subscription ended without a change.
    StreamEnded,
}

/// What the monitor asks its caller to do next.
#[derive(Debug, Clone, PartialEq, Eq)]
pub enum Action {
    /// Build the unit's proxy at this object path.
    BuildProxy(String),
    /// Subscribe to changes of `ActiveState`.
    Subscribe,
    /// Read `ActiveState`.
    Query,
    /// Hand this status to the output.
    Publish(RenderedStatus),
    /// Wait for the next change from the subscription.
    AwaitChange,
    /// Stop, and return this error.
    Fail(Error),
    /// Nothing: the event was not the one the monitor waited for.
    Ignore,
}

/// The kind of an action that is not `Ignore`.
#[derive(Debug, Clone, Copy, PartialEq, Eq, Structural)]
pub enum Command {
    BuildProxy,
    Subscribe,
    Query,
    Publish,
    AwaitChange,
    Fail,
}

impl Action {
    pub open spec fn command(self) -> Option<Command> {
        match self {
            Action::BuildProxy(_) => Some(Command::BuildProxy),
            Action::Subscribe => Some(Command::Subscribe),
            Action::Query => Some(Command::Query),
            Action::Publish(_) => Some(Command::Publish),
            Action::AwaitChange => Some(Command::AwaitChange),
            Action::Fail(_) => Some(Command::Fail),
            Action::Ignore => None,
        }
    }
}

/// The value of `ActiveState` that counts as active; every other value,
/// transitional ones included, counts as inactive.
pub open spec fn active_word() -> Seq<char> {
    seq!['a', 'c', 't', 'i', 'v', 'e']
}

/// The next phase, and the kind of action asked for, when `e` arrives in
/// phase `p`; `None` when `p` does not wait for `e`.
pub open spec fn transition(p: Phase, e: Event) -> Option<(Phase, Command)> {
    match (p, e) {
        (Phase::Connecting, Event::Connected) => Some((Phase::BuildingProxy, Command::BuildProxy)),
        (Phase::Connecting, Event::ConnectFailed) => Some(
            (Phase::Failed(Error::Ipc(Operation::Connect)), Command::Fail),
        ),
        (Phase::BuildingProxy, Event::ProxyBuilt) => Some((Phase::Subscribing, Command::Subscribe)),
        (Phase::BuildingProxy, Event::ProxyFailed) => Some(
            (Phase::Failed(Error::Ipc(Operation::BuildProxy)), Command::Fail),
        ),
        (Phase::Subscribing, Event::Subscribed) => Some((Phase::Querying, Command::Query)),
        (Phase::Subscribing, Event::SubscribeFailed) => Some(
            (Phase::Failed(Error::Ipc(Operation::Subscribe)), Command::Fail),
        ),
        (Phase::Querying, Event::ActiveState(s)) => Some(
            (Phase::Publishing(s@ == active_word()), Command::Publish),
        ),
        (Phase::Querying, Event::ReadFailed) => Some(
            (Phase::Failed(Error::Ipc(Operation::ReadState)), Command::Fail),
        ),
        (Phase::Publishing(_), Event::Published) => Some((Phase::Waiting, Command::AwaitChange)),
        (Phase::Waiting, Event::Changed) => Some((Phase::Querying, Command::Query)),
        (Phase::Waiting, Event::StreamEnded) => Some(
            (Phase::Failed(Error::Ipc(Operation::Subscription)), Command::Fail),
        ),
        _ => None,
    }
}

/// Whether a read `ActiveState` value means the service is active: exactly
/// `"active"`.
pub fn is_active_state(state: &str) -> (r: bool)
    ensures
        r == (state@ == active_word()),
{
    let word = "active";
    proof {
        reveal_strlit("active");
    }
    assert(word@ =~= active_word());
    let n = state.unicode_len();
    if n != 6 {
        return false;
    }
    let mut k: usize = 0;
    while k < 6
        invariant
            n == state@.len(),
            n == 6,
            k <= 6,
            word@ == active_word(),
            forall|j: int| 0 <= j < k ==> state@[j] == active_word()[j],
        decreases 6 - k,
    {
        if state.get_char(k) != word.get_char(k) {
            return false;
        }
        k = k + 1;
    }
    assert(state@ =~= active_word());
    true
}

/// The monitor of one service: it holds the service's name, its unit's
/// object path and the two profiles, and decides, from each reported
/// outcome, which bus operation comes next.
pub struct Monitor {
    service: String,
    path: String,
    active: Profile,
    inactive: Profile,
    phase: Phase,
}

impl Monitor {
    #[verifier::type_invariant]
    spec fn well_formed(self) -> bool {
        &&& is_ascii_chars(self.service@)
        &&& self.path@ == unit_path_of(self.service@)
    }

    pub closed spec fn service_spec(self) -> Seq<char> {
        self.service@
    }

    pub closed spec fn path_spec(self) -> Seq<char> {
        self.path@
    }

    pub closed spec fn phase_spec(self) -> Phase {
        self.phase
    }

    /// The profile that goes with an observation: the active one when
    /// `active`, else the inactive one.
    pub closed spec fn profile_spec(self, active: bool) -> Profile {
        if active {
            self.active
        } else {
            self.inactive
        }
    }

    /// The status shown for an observation.
    pub open spec fn status_spec(self, active: bool) -> (State, Seq<char>) {
        (
            self.profile_spec(active).state,
            render(self.profile_spec(active).template@, self.service_spec()),
        )
    }
}

impl Monitor {
    /// A monitor of `config.service`, in phase `Connecting`: its caller opens
    /// the system bus connection and reports `Connected` or `ConnectFailed`.
    ///
    /// A name that holds a character outside ASCII is refused with
    /// `Error::NotAscii` before anything is encoded or connected.
    pub fn new(config: &Config) -> (r: Result<Monitor, Error>)
        ensures
            !is_ascii_chars(config.service@) <==> r == Err::<Monitor, Error>(Error::NotAscii),
            r is Err ==> r == Err::<Monitor, Error>(Error::NotAscii),
            r matches Ok(m) ==> {
                &&& m.service_spec() == config.service@
                &&& m.path_spec() == unit_path_of(config.service@)
                &&& m.phase_spec() == Phase::Connecting
                &&& m.profile_spec(true).state == state_or(config.active_state, State::Idle)
                &&& m.profile_spec(true).template@ == format_or(
                    config.active_format,
                    default_active_format(),
                )
                &&& m.profile_spec(false).state == state_or(config.inactive_state, State::Critical)
                &&& m.profile_spec(false).template@ == format_or(
                    config.inactive_format,
                    default_inactive_format(),
                )
            },
    {
        let path = match unit_path(config.service.as_str()) {
            Ok(p) => p,
            Err(e) => {
                return Err(e);
            },
        };
        Ok(
            Monitor {
                service: config.service.clone(),
                path,
                active: config.active_profile(),
                inactive: config.inactive_profile(),
                phase: Phase::Connecting,
            },
        )
    }

    /// The phase the monitor stands in.
    pub fn phase(&self) -> (r: Phase)
        ensures
            r == self.phase_spec(),
    {
        self.phase
    }

    /// The name of the monitored service.
    pub fn service(&self) -> (r: &str)
        ensures
            r@ == self.service_spec(),
    {
        self.service.as_str()
    }

    /// The object path of the service's unit.
    pub fn path(&self) -> (r: &str)
        ensures
            r@ == self.path_spec(),
            r@ == unit_path_of(self.service_spec()),
    {
        proof {
            use_type_invariant(self);
        }
        self.path.as_str()
    }

    /// The status shown for an observation: the profile's classification,
    /// and its template filled with the service name.
    pub fn status(&self, active: bool) -> (r: RenderedStatus)
        ensures
            (r.state, r.text@) == self.status_spec(active),
    {
        let profile = if active {
            &self.active
        } else {
            &self.inactive
        };
        RenderedStatus {
            state: profile.state,
            text: render_template(profile.template.as_str(), self.service.as_str()),
        }
    }

    /// Whether `a` carries what the monitor asks for on entering phase `p`:
    /// the unit's path, the status of the observation, or the error.
    pub open spec fn carries(self, p: Phase, a: Action) -> bool {
        match a {
            Action::BuildProxy(path) => path@ == unit_path_of(self.service_spec()),
            Action::Publish(st) => p matches Phase::Publishing(active) && (st.state, st.text@)
                == self.status_spec(active),
            Action::Fail(err) => p == Phase::Failed(err),
            _ => true,
        }
    }

    /// Takes the outcome `e` of the operation last asked for, moves to the
    /// next phase and says what to do next. An event that the phase does not
    /// wait for changes nothing and asks for nothing (`Ignore`); so does every
    /// event once the monitor has failed.
    pub fn step(&mut self, e: Event) -> (r: Action)
        ensures
            final(self).service_spec() == old(self).service_spec(),
            final(self).path_spec() == old(self).path_spec(),
            final(self).profile_spec(true) == old(self).profile_spec(true),
            final(self).profile_spec(false) == old(self).profile_spec(false),
            match transition(old(self).phase_spec(), e) {
                None => final(self).phase_spec() == old(self).phase_spec() && r is Ignore,
                Some((p, c)) => {
                    &&& final(self).phase_spec() == p
                    &&& r.command() == Some(c)
                    &&& old(self).carries(p, r)
                },
            },
    {
        proof {
            use_type_invariant(&*self);
        }
        let (next, action) = match (self.phase, e) {
            (Phase::Connecting, Event::Connected) => (
                Phase::BuildingProxy,
                Action::BuildProxy(self.path.clone()),
            ),
            (Phase::Connecting, Event::ConnectFailed) => {
                let err = Error::Ipc(Operation::Connect);
                (Phase::Failed(err), Action::Fail(err))
            },
            (Phase::BuildingProxy, Event::ProxyBuilt) => (Phase::Subscribing, Action::Subscribe),
            (Phase::BuildingProxy, Event::ProxyFailed) => {
                let err = Error::Ipc(Operation::BuildProxy);
                (Phase::Failed(err), Action::Fail(err))
            },
            (Phase::Subscribing, Event::Subscribed) => (Phase::Querying, Action::Query),
            (Phase::Subscribing, Event::SubscribeFailed) => {
                let err = Error::Ipc(Operation::Subscribe);
                (Phase::Failed(err), Action::Fail(err))
            },
            (Phase::Querying, Event::ActiveState(s)) => {
                let active = is_active_state(s.as_str());
                (Phase::Publishing(active), Action::Publish(self.status(active)))
            },
            (Phase::Querying, Event::ReadFailed) => {
                let err = Error::Ipc(Operation::ReadState);
                (Phase::Failed(err), Action::Fail(err))
            },
            (Phase::Publishing(_), Event::Published) => (Phase::Waiting, Action::AwaitChange),
            (Phase::Waiting, Event::Changed) => (Phase::Querying, Action::Query),
            (Phase::Waiting, Event::StreamEnded) => {
                let err = Error::Ipc(Operation::Subscription);
                (Phase::Failed(err), Action::Fail(err))
            },
            _ => {
                return Action::Ignore;
            },
        };
        self.phase = next;
        action
    }
}

} // verus!
