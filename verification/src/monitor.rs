//! The monitor loop: read the handshake once, then poll the feature for
//! ever, switch it on whenever it is found off, and rest in between. The
//! first failure ends the loop; nothing is tried again.
//!
//! The monitor sends nothing and never sleeps itself. It names the next
//! action, the driver performs it and reports what happened.

use crate::control::{
    enable_request, enabling_of, get_status, get_status_request, set_enabled,
    set_enabled_request, status_of, status_request, HttpOutcome, HttpRequest, RequestModel,
};
use crate::credentials::{credentials_in, LpContents};
use crate::error::MonitorError;
use vstd::pervasive::unreached;
use vstd::prelude::*;

verus! {

/// Where the monitor stands.
#[derive(Clone, Copy, Debug, PartialEq, Eq, Structural)]
pub enum MonitorPhase {
    /// The handshake has not been read yet.
    Unknown,
    /// The status request is under way.
    Checking,
    /// The enabling request is under way.
    Enabling,
    /// Resting until the next poll.
    Sleeping,
    /// A failure has ended the loop.
    Failed,
}

/// What a poll found before the monitor went to rest.
#[derive(Clone, Copy, Debug, PartialEq, Eq, Structural)]
pub enum Milestone {
    /// The feature was on already.
    AlreadyEnabled,
    /// The feature was off and has been switched on.
    Enabled,
}

/// What the driver reports to the monitor.
pub enum MonitorEvent {
    /// The handshake was read: its text, or why there is none.
    Handshake(Result<String, MonitorError>),
    /// The request that was sent last has come to its end.
    Reply(HttpOutcome),
    /// The rest is over.
    Woke,
}

/// What the monitor asks its driver to do next.
pub enum MonitorAction {
    /// Send this request and report how it ended.
    Send(HttpRequest),
    /// Rest for the configured interval, then report back.
    Rest(Milestone),
    /// Give up with this failure.
    Stop(MonitorError),
}

/// An action as contracts see it.
pub enum ActionModel {
    Send(RequestModel),
    Rest(Milestone),
    Stop(MonitorError),
}

impl View for MonitorAction {
    type V = ActionModel;

    open spec fn view(&self) -> ActionModel {
        match self {
            MonitorAction::Send(request) => ActionModel::Send(request@),
            MonitorAction::Rest(milestone) => ActionModel::Rest(*milestone),
            MonitorAction::Stop(failure) => ActionModel::Stop(*failure),
        }
    }
}

/// The monitor as contracts see it.
pub struct MonitorModel {
    pub endpoint: Seq<char>,
    pub phase: MonitorPhase,
    pub credentials: Option<(u16, Seq<char>)>,
    pub failure: Option<MonitorError>,
}

/// Whether the monitor is past the handshake and has not failed.
pub open spec fn watching(phase: MonitorPhase) -> bool {
    phase is Checking || phase is Enabling || phase is Sleeping
}

impl MonitorModel {
    /// What holds of every monitor: it has its credentials while it watches,
    /// and its failure exactly once it has failed.
    pub open spec fn wf(self) -> bool {
        &&& watching(self.phase) ==> self.credentials is Some
        &&& self.failure is Some <==> self.phase is Failed
    }

    /// The same monitor in another phase.
    pub open spec fn at(self, phase: MonitorPhase) -> MonitorModel {
        MonitorModel { phase, ..self }
    }

    /// The same monitor, failed.
    pub open spec fn failed(self, failure: MonitorError) -> MonitorModel {
        MonitorModel { phase: MonitorPhase::Failed, failure: Some(failure), ..self }
    }

    /// The status request for this monitor's credentials and endpoint.
    pub open spec fn poll(self) -> ActionModel {
        ActionModel::Send(
            status_request(self.credentials->Some_0.0, self.credentials->Some_0.1, self.endpoint),
        )
    }

    /// The enabling request for this monitor's credentials and endpoint.
    pub open spec fn enable(self) -> ActionModel {
        ActionModel::Send(
            enable_request(self.credentials->Some_0.0, self.credentials->Some_0.1, self.endpoint),
        )
    }
}

/// What follows the handshake: with credentials the first poll, without
/// them the end.
pub open spec fn after_handshake(
    m: MonitorModel,
    credentials: Result<(u16, Seq<char>), MonitorError>,
) -> Option<(MonitorModel, ActionModel)> {
    if m.phase is Unknown {
        match credentials {
            Ok(c) => {
                let after = MonitorModel {
                    phase: MonitorPhase::Checking,
                    credentials: Some(c),
                    ..m
                };
                Some((after, after.poll()))
            },
            Err(e) => Some((m.failed(e), ActionModel::Stop(e))),
        }
    } else {
        None
    }
}

/// What follows a poll: rest where the feature is on, the enabling request
/// where it is off, the end where the poll failed.
pub open spec fn after_status(m: MonitorModel, status: Result<bool, MonitorError>) -> Option<
    (MonitorModel, ActionModel),
> {
    if m.phase is Checking {
        match status {
            Ok(true) => Some(
                (m.at(MonitorPhase::Sleeping), ActionModel::Rest(Milestone::AlreadyEnabled)),
            ),
            Ok(false) => Some((m.at(MonitorPhase::Enabling), m.enable())),
            Err(e) => Some((m.failed(e), ActionModel::Stop(e))),
        }
    } else {
        None
    }
}

/// What follows the enabling request: rest where it succeeded, the end
/// where it failed.
pub open spec fn after_enabling(m: MonitorModel, enabled: Result<(), MonitorError>) -> Option<
    (MonitorModel, ActionModel),
> {
    if m.phase is Enabling {
        match enabled {
            Ok(_) => Some((m.at(MonitorPhase::Sleeping), ActionModel::Rest(Milestone::Enabled))),
            Err(e) => Some((m.failed(e), ActionModel::Stop(e))),
        }
    } else {
        None
    }
}

/// What follows the rest: the next poll.
pub open spec fn after_wake(m: MonitorModel) -> Option<(MonitorModel, ActionModel)> {
    if m.phase is Sleeping {
        Some((m.at(MonitorPhase::Checking), m.poll()))
    } else {
        None
    }
}

/// The credentials that the outcome of the handshake amounts to.
pub open spec fn credentials_of(handshake: Result<String, MonitorError>) -> Result<
    (u16, Seq<char>),
    MonitorError,
> {
    match handshake {
        Ok(text) => match credentials_in(text@) {
            Some(c) => Ok(c),
            None => Err(MonitorError::HandshakeFormatError),
        },
        Err(e) => Err(e),
    }
}

/// The monitor's rule: the state and the action that follow when `event`
/// arrives in state `m`, or `None` where `event` answers nothing that the
/// monitor has asked for.
pub open spec fn next(m: MonitorModel, event: MonitorEvent) -> Option<(MonitorModel, ActionModel)> {
    match event {
        MonitorEvent::Handshake(handshake) => after_handshake(m, credentials_of(handshake)),
        MonitorEvent::Reply(outcome) => match m.phase {
            MonitorPhase::Checking => after_status(m, status_of(outcome)),
            MonitorPhase::Enabling => after_enabling(m, enabling_of(outcome)),
            _ => None,
        },
        MonitorEvent::Woke => after_wake(m),
    }
}

/// Whether what an exec step returned is what the rule gives.
pub open spec fn follows(
    before: MonitorModel,
    rule: Option<(MonitorModel, ActionModel)>,
    after: MonitorModel,
    action: Option<MonitorAction>,
) -> bool {
    match rule {
        Some((m, a)) => after == m && action is Some && action->Some_0@ == a,
        None => after == before && action is None,
    }
}

/// The loop's state between two actions.
pub struct Monitor {
    endpoint: String,
    phase: MonitorPhase,
    credentials: Option<LpContents>,
    failure: Option<MonitorError>,
}

impl View for Monitor {
    type V = MonitorModel;

    closed spec fn view(&self) -> MonitorModel {
        MonitorModel {
            endpoint: self.endpoint@,
            phase: self.phase,
            credentials: match self.credentials {
                Some(c) => Some((c.port, c.secret@)),
                None => None,
            },
            failure: self.failure,
        }
    }
}

impl Monitor {
    #[verifier::type_invariant]
    spec fn inv(self) -> bool {
        self@.wf()
    }

    /// A monitor for the endpoint at this path, before the handshake.
    pub fn new(enable_endpoint: String) -> (r: Monitor)
        ensures
            r@ == (MonitorModel {
                endpoint: enable_endpoint@,
                phase: MonitorPhase::Unknown,
                credentials: None,
                failure: None,
            }),
            r@.wf(),
    {
        Monitor {
            endpoint: enable_endpoint,
            phase: MonitorPhase::Unknown,
            credentials: None,
            failure: None,
        }
    }

    /// Where the monitor stands.
    pub fn phase(&self) -> (r: MonitorPhase)
        ensures
            r == self@.phase,
    {
        self.phase
    }

    /// The failure that ended the loop, once it has ended.
    pub fn failure(&self) -> (r: Option<MonitorError>)
        ensures
            r == self@.failure,
    {
        self.failure
    }

    fn fail(self, failure: MonitorError) -> (r: (Monitor, Option<MonitorAction>))
        ensures
            r.0@ == self@.failed(failure),
            r.1 is Some,
            r.1->Some_0@ == ActionModel::Stop(failure),
    {
        (
            Monitor {
                endpoint: self.endpoint,
                phase: MonitorPhase::Failed,
                credentials: self.credentials,
                failure: Some(failure),
            },
            Some(MonitorAction::Stop(failure)),
        )
    }

    fn rest(self, milestone: Milestone) -> (r: (Monitor, Option<MonitorAction>))
        requires
            watching(self@.phase),
        ensures
            r.0@ == self@.at(MonitorPhase::Sleeping),
            r.1 is Some,
            r.1->Some_0@ == ActionModel::Rest(milestone),
    {
        proof {
            use_type_invariant(&self);
        }
        (
            Monitor {
                endpoint: self.endpoint,
                phase: MonitorPhase::Sleeping,
                credentials: self.credentials,
                failure: self.failure,
            },
            Some(MonitorAction::Rest(milestone)),
        )
    }

    fn ask(endpoint: String, credentials: LpContents, enabling: bool) -> (r: (
        Monitor,
        Option<MonitorAction>,
    ))
        ensures
            r.0@ == (MonitorModel {
                endpoint: endpoint@,
                phase: if enabling {
                    MonitorPhase::Enabling
                } else {
                    MonitorPhase::Checking
                },
                credentials: Some((credentials.port, credentials.secret@)),
                failure: None,
            }),
            r.1 is Some,
            r.1->Some_0@ == if enabling {
                r.0@.enable()
            } else {
                r.0@.poll()
            },
    {
        let request = if enabling {
            set_enabled_request(endpoint.as_str(), &credentials)
        } else {
            get_status_request(endpoint.as_str(), &credentials)
        };
        (
            Monitor {
                endpoint,
                phase: if enabling {
                    MonitorPhase::Enabling
                } else {
                    MonitorPhase::Checking
                },
                credentials: Some(credentials),
                failure: None,
            },
            Some(MonitorAction::Send(request)),
        )
    }

    fn ask_again(self, enabling: bool) -> (r: (Monitor, Option<MonitorAction>))
        requires
            watching(self@.phase),
        ensures
            r.0@ == self@.at(
                if enabling {
                    MonitorPhase::Enabling
                } else {
                    MonitorPhase::Checking
                },
            ),
            r.1 is Some,
            r.1->Some_0@ == if enabling {
                self@.enable()
            } else {
                self@.poll()
            },
    {
        proof {
            use_type_invariant(&self);
        }
        match self.credentials {
            Some(c) => Monitor::ask(self.endpoint, c, enabling),
            None => unreached(),
        }
    }

    /// Takes the result of the handshake, decoded. With credentials the
    /// monitor sends its first status request; without them it stops with
    /// the failure. Out of turn, this changes nothing and yields no action.
    pub fn on_handshake(self, credentials: Result<LpContents, MonitorError>) -> (r: (
        Monitor,
        Option<MonitorAction>,
    ))
        ensures
            r.0@.wf(),
            follows(
                self@,
                after_handshake(
                    self@,
                    match credentials {
                        Ok(c) => Ok((c.port, c.secret@)),
                        Err(e) => Err(e),
                    },
                ),
                r.0@,
                r.1,
            ),
    {
        proof {
            use_type_invariant(&self);
        }
        match self.phase {
            MonitorPhase::Unknown => match credentials {
                Ok(c) => Monitor::ask(self.endpoint, c, false),
                Err(e) => self.fail(e),
            },
            _ => (self, None),
        }
    }

    /// Takes the result of a poll. Where the feature is on, the monitor
    /// rests and sends nothing; where it is off, it sends the enabling
    /// request; where the poll failed, it stops with the failure. Out of
    /// turn, this changes nothing and yields no action.
    pub fn on_status(self, status: Result<bool, MonitorError>) -> (r: (
        Monitor,
        Option<MonitorAction>,
    ))
        ensures
            r.0@.wf(),
            follows(self@, after_status(self@, status), r.0@, r.1),
    {
        proof {
            use_type_invariant(&self);
        }
        match self.phase {
            MonitorPhase::Checking => match status {
                Ok(true) => self.rest(Milestone::AlreadyEnabled),
                Ok(false) => self.ask_again(true),
                Err(e) => self.fail(e),
            },
            _ => (self, None),
        }
    }

    /// Takes the result of the enabling request. Where it succeeded the
    /// monitor rests; where it failed, it stops with the failure. Out of
    /// turn, this changes nothing and yields no action.
    pub fn on_enabling(self, enabled: Result<(), MonitorError>) -> (r: (
        Monitor,
        Option<MonitorAction>,
    ))
        ensures
            r.0@.wf(),
            follows(self@, after_enabling(self@, enabled), r.0@, r.1),
    {
        proof {
            use_type_invariant(&self);
        }
        match self.phase {
            MonitorPhase::Enabling => match enabled {
                Ok(_) => self.rest(Milestone::Enabled),
                Err(e) => self.fail(e),
            },
            _ => (self, None),
        }
    }

    /// Takes the end of the rest and sends the next status request. Out of
    /// turn, this changes nothing and yields no action.
    pub fn on_wake(self) -> (r: (Monitor, Option<MonitorAction>))
        ensures
            r.0@.wf(),
            follows(self@, after_wake(self@), r.0@, r.1),
    {
        proof {
            use_type_invariant(&self);
        }
        match self.phase {
            MonitorPhase::Sleeping => self.ask_again(false),
            _ => (self, None),
        }
    }

    /// Takes the driver's report and names the next action. A report that
    /// answers nothing the monitor has asked for changes nothing and yields
    /// no action.
    pub fn step(self, event: MonitorEvent) -> (r: (Monitor, Option<MonitorAction>))
        ensures
            r.0@.wf(),
            follows(self@, next(self@, event), r.0@, r.1),
    {
        proof {
            use_type_invariant(&self);
        }
        match event {
            MonitorEvent::Handshake(handshake) => {
                let credentials = match handshake {
                    Ok(text) => LpContents::decode(text.as_str()),
                    Err(e) => Err(e),
                };
                self.on_handshake(credentials)
            },
            MonitorEvent::Reply(outcome) => match self.phase {
                MonitorPhase::Checking => {
                    let status = get_status(&outcome);
                    self.on_status(status)
                },
                MonitorPhase::Enabling => {
                    let enabled = set_enabled(&outcome);
                    self.on_enabling(enabled)
                },
                _ => (self, None),
            },
            MonitorEvent::Woke => self.on_wake(),
        }
    }
}

/// Every step keeps the monitor well formed.
pub proof fn lemma_next_wf(m: MonitorModel, event: MonitorEvent)
    requires
        m.wf(),
    ensures
        next(m, event) is Some ==> next(m, event)->Some_0.0.wf(),
{
}

/// A poll that finds the feature on is followed by the rest: nothing is
/// sent in that iteration.
pub proof fn lemma_enabled_poll_sends_nothing(m: MonitorModel, outcome: HttpOutcome)
    requires
        m.wf(),
        m.phase is Checking,
        status_of(outcome) == Ok::<bool, MonitorError>(true),
    ensures
        next(m, MonitorEvent::Reply(outcome)) == Some(
            (m.at(MonitorPhase::Sleeping), ActionModel::Rest(Milestone::AlreadyEnabled)),
        ),
{
}

/// A poll that finds the feature off is followed by the enabling request,
/// and whatever is reported next, no further request goes out before the
/// monitor rests or stops: the rest follows where the request succeeded,
/// the end with its failure where it did not.
pub proof fn lemma_disabled_poll_enables_once(
    m: MonitorModel,
    outcome: HttpOutcome,
    later: MonitorEvent,
)
    requires
        m.wf(),
        m.phase is Checking,
        status_of(outcome) == Ok::<bool, MonitorError>(false),
    ensures
        ({
            let first = next(m, MonitorEvent::Reply(outcome));
            let second = next(first->Some_0.0, later);
            &&& first == Some((m.at(MonitorPhase::Enabling), m.enable()))
            &&& m.enable() is Send && m.enable()->Send_0.method is Post
            &&& second is Some ==> later is Reply && !(second->Some_0.1 is Send)
            &&& later is Reply ==> match enabling_of(later->Reply_0) {
                Ok(_) => second == Some(
                    (m.at(MonitorPhase::Sleeping), ActionModel::Rest(Milestone::Enabled)),
                ),
                Err(e) => second == Some((m.failed(e), ActionModel::Stop(e))),
            }
        }),
{
}

/// The enabling request goes out on one occasion only: in answer to a poll
/// that found the feature off.
pub proof fn lemma_enabling_only_when_disabled(m: MonitorModel, event: MonitorEvent)
    requires
        m.wf(),
        next(m, event) is Some,
        next(m, event)->Some_0.1 is Send,
        next(m, event)->Some_0.1->Send_0.method is Post,
    ensures
        m.phase is Checking,
        event is Reply,
        status_of(event->Reply_0) == Ok::<bool, MonitorError>(false),
{
}

/// The first failure ends the loop: a failed handshake, poll or enabling
/// request is followed by the end with that failure and by nothing else,
/// and a monitor that has failed takes no further report.
pub proof fn lemma_fail_fast(m: MonitorModel, event: MonitorEvent)
    requires
        m.wf(),
    ensures
        m.phase is Failed ==> next(m, event) is None,
        m.phase is Unknown && event is Handshake && credentials_of(event->Handshake_0) is Err
            ==> next(m, event) == Some(
            (
                m.failed(credentials_of(event->Handshake_0)->Err_0),
                ActionModel::Stop(credentials_of(event->Handshake_0)->Err_0),
            ),
        ),
        m.phase is Checking && event is Reply && status_of(event->Reply_0) is Err ==> next(
            m,
            event,
        ) == Some(
            (
                m.failed(status_of(event->Reply_0)->Err_0),
                ActionModel::Stop(status_of(event->Reply_0)->Err_0),
            ),
        ),
        m.phase is Enabling && event is Reply && enabling_of(event->Reply_0) is Err ==> next(
            m,
            event,
        ) == Some(
            (
                m.failed(enabling_of(event->Reply_0)->Err_0),
                ActionModel::Stop(enabling_of(event->Reply_0)->Err_0),
            ),
        ),
{
}

} // verus!
