//! The relay: its start-up, and its reaction to what the transport hands
//! over.

use vstd::prelude::*;
use crate::event::{forward_decoded, reaction, Action, Failure, FailureView, Received};
use crate::json::decode;

verus! {

/// The steps of the start-up, in the order in which they are taken.
#[derive(Clone, Copy, Debug, PartialEq, Eq, Structural)]
pub enum Stage {
    /// A messaging context is to be created.
    CreateContext,
    /// A subscriber socket is to be opened.
    OpenSocket,
    /// The socket is to be connected to the endpoint.
    Connect,
    /// The topic filter is to be set.
    Subscribe,
}

/// Where a relay stands.
#[derive(Clone, Copy, Debug, PartialEq, Eq, Structural)]
pub enum State {
    /// Starting up; the stage is the step that comes next.
    Connecting(Stage),
    /// Subscribed, and pumping messages.
    Running,
    /// A step of the start-up failed. There is no way out of this state.
    Failed,
}

/// One step of the start-up, for the owner of the socket to take.
#[derive(Debug, PartialEq)]
pub enum SetupAction {
    /// Create a messaging context.
    CreateContext,
    /// Open a subscriber socket in the context.
    OpenSubscriber,
    /// Connect the socket to `endpoint`.
    Connect { endpoint: String },
    /// Subscribe to the topics that begin with `filter`.
    Subscribe { filter: Vec<u8> },
}

/// The mathematical value of a [`SetupAction`].
pub enum SetupActionView {
    CreateContext,
    OpenSubscriber,
    Connect { endpoint: Seq<char> },
    Subscribe { filter: Seq<u8> },
}

impl View for SetupAction {
    type V = SetupActionView;

    open spec fn view(&self) -> SetupActionView {
        match *self {
            SetupAction::CreateContext => SetupActionView::CreateContext,
            SetupAction::OpenSubscriber => SetupActionView::OpenSubscriber,
            SetupAction::Connect { endpoint } => SetupActionView::Connect { endpoint: endpoint@ },
            SetupAction::Subscribe { filter } => SetupActionView::Subscribe { filter: filter@ },
        }
    }
}

/// The endpoint of a relay that was given none.
pub open spec fn default_endpoint() -> Seq<char> {
    "tcp://localhost:5555"@
}

/// The state that follows `state` once the step that it asks for has been
/// taken. A step that succeeds leads to the next one, the last to `Running`;
/// a step that fails leads to `Failed`. Outside the start-up nothing changes.
pub open spec fn after_setup(state: State, succeeded: bool) -> State {
    match state {
        State::Connecting(stage) => if !succeeded {
            State::Failed
        } else {
            match stage {
                Stage::CreateContext => State::Connecting(Stage::OpenSocket),
                Stage::OpenSocket => State::Connecting(Stage::Connect),
                Stage::Connect => State::Connecting(Stage::Subscribe),
                Stage::Subscribe => State::Running,
            }
        },
        State::Running => State::Running,
        State::Failed => State::Failed,
    }
}

/// The step that `state` asks for: none outside the start-up. The filter is
/// empty, so that every topic is received.
pub open spec fn setup_step(state: State, endpoint: Seq<char>) -> Option<SetupActionView> {
    match state {
        State::Connecting(Stage::CreateContext) => Some(SetupActionView::CreateContext),
        State::Connecting(Stage::OpenSocket) => Some(SetupActionView::OpenSubscriber),
        State::Connecting(Stage::Connect) => Some(SetupActionView::Connect { endpoint }),
        State::Connecting(Stage::Subscribe) => Some(
            SetupActionView::Subscribe { filter: Seq::<u8>::empty() },
        ),
        State::Running => None,
        State::Failed => None,
    }
}

/// Four steps that succeed lead from the first stage to `Running`, and no
/// fewer do.
pub proof fn law_startup_reaches_running()
    ensures
        after_setup(
            after_setup(
                after_setup(after_setup(State::Connecting(Stage::CreateContext), true), true),
                true,
            ),
            true,
        ) == State::Running,
        after_setup(
            after_setup(after_setup(State::Connecting(Stage::CreateContext), true), true),
            true,
        ) != State::Running,
{
}

/// A step that fails ends the start-up, whatever the stage, and nothing
/// that is noted afterwards leads out of `Failed`.
pub proof fn law_failure_is_final(stage: Stage, succeeded: bool)
    ensures
        after_setup(State::Connecting(stage), false) == State::Failed,
        after_setup(State::Failed, succeeded) == State::Failed,
{
}

/// A relay that runs keeps running, and only the last step of the start-up,
/// if it succeeds, makes a relay run that did not.
pub proof fn law_running_is_kept(state: State, succeeded: bool)
    ensures
        state == State::Running ==> after_setup(state, succeeded) == State::Running,
        after_setup(state, succeeded) == State::Running && state != State::Running ==> succeeded
            && state == State::Connecting(Stage::Subscribe),
{
}

/// A relay between one endpoint of the message bus and the event stream.
pub struct Relay {
    endpoint: String,
    state: State,
}

/// The mathematical value of a [`Relay`].
pub struct RelayView {
    /// The address that the relay subscribes to.
    pub endpoint: Seq<char>,
    /// Where the relay stands.
    pub state: State,
}

impl View for Relay {
    type V = RelayView;

    closed spec fn view(&self) -> RelayView {
        RelayView { endpoint: self.endpoint@, state: self.state }
    }
}

impl Relay {
    /// Whether this relay is pumping messages.
    pub open spec fn running(&self) -> bool {
        self@.state == State::Running
    }

    /// A relay for `endpoint`, before the first step of its start-up. The
    /// address is taken as it is.
    pub fn new(endpoint: String) -> (relay: Relay)
        ensures
            relay@ == (RelayView {
                endpoint: endpoint@,
                state: State::Connecting(Stage::CreateContext),
            }),
    {
        Relay { endpoint, state: State::Connecting(Stage::CreateContext) }
    }

    /// A relay for the default endpoint, before the first step of its
    /// start-up.
    pub fn with_default_endpoint() -> (relay: Relay)
        ensures
            relay@ == (RelayView {
                endpoint: default_endpoint(),
                state: State::Connecting(Stage::CreateContext),
            }),
    {
        Relay::new("tcp://localhost:5555".to_owned())
    }

    /// The address that this relay subscribes to.
    pub fn endpoint(&self) -> (endpoint: &str)
        ensures
            endpoint@ == self@.endpoint,
    {
        self.endpoint.as_str()
    }

    /// Where this relay stands.
    pub fn state(&self) -> (state: State)
        ensures
            state == self@.state,
    {
        self.state
    }

    /// Whether this relay is pumping messages.
    pub fn is_running(&self) -> (running: bool)
        ensures
            running == self.running(),
    {
        match self.state {
            State::Running => true,
            _ => false,
        }
    }

    /// The step of the start-up that is to be taken now, if any.
    pub fn next_setup(&self) -> (step: Option<SetupAction>)
        ensures
            match step {
                Some(action) => setup_step(self@.state, self@.endpoint) == Some(action@),
                None => setup_step(self@.state, self@.endpoint) is None,
            },
    {
        match self.state {
            State::Connecting(Stage::CreateContext) => Some(SetupAction::CreateContext),
            State::Connecting(Stage::OpenSocket) => Some(SetupAction::OpenSubscriber),
            State::Connecting(Stage::Connect) => Some(
                SetupAction::Connect { endpoint: self.endpoint.clone() },
            ),
            State::Connecting(Stage::Subscribe) => Some(
                SetupAction::Subscribe { filter: Vec::new() },
            ),
            State::Running => None,
            State::Failed => None,
        }
    }

    /// Takes note of how the step that `next_setup` asked for went. The
    /// endpoint stays as it is.
    pub fn setup_done(&mut self, succeeded: bool)
        ensures
            final(self)@ == (RelayView {
                endpoint: old(self)@.endpoint,
                state: after_setup(old(self)@.state, succeeded),
            }),
    {
        let next = match self.state {
            State::Connecting(stage) => if !succeeded {
                State::Failed
            } else {
                match stage {
                    Stage::CreateContext => State::Connecting(Stage::OpenSocket),
                    Stage::OpenSocket => State::Connecting(Stage::Connect),
                    Stage::Connect => State::Connecting(Stage::Subscribe),
                    Stage::Subscribe => State::Running,
                }
            },
            State::Running => State::Running,
            State::Failed => State::Failed,
        };
        self.state = next;
    }

    /// Decides what follows one wait on the subscription. Text is decoded,
    /// and the document, if there is one, is to be broadcast; text without a
    /// document is discarded; anything else is reported. Only a relay that
    /// runs waits on the subscription, and it stays as it is, whatever was
    /// received.
    pub fn on_received(&self, received: Received) -> (action: Action)
        requires
            self.running(),
        ensures
            action@ == reaction(received@),
    {
        match received {
            Received::Text(text) => forward_decoded(decode(text.as_str())),
            Received::Bytes(bytes) => Action::Report(Failure::NotText(bytes)),
            Received::TransportError(message) => Action::Report(Failure::Receive(message)),
        }
    }

    /// Decides what follows a broadcast. One that failed is reported and
    /// not tried again; the relay stays as it is.
    pub fn on_broadcast_done(&self, outcome: Result<(), String>) -> (report: Option<Failure>)
        requires
            self.running(),
        ensures
            match outcome {
                Ok(_) => report is None,
                Err(message) => report is Some && report.unwrap()@ == FailureView::Broadcast(
                    message@,
                ),
            },
    {
        match outcome {
            Ok(_) => None,
            Err(message) => Some(Failure::Broadcast(message)),
        }
    }
}

} // verus!
