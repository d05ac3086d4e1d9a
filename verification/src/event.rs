//! What the transport hands to the relay, and what the relay asks for in
//! return.

use vstd::prelude::*;
use crate::json::json_value;

verus! {

/// The outcome of one wait on the subscription.
#[derive(Debug, PartialEq)]
pub enum Received {
    /// A message that is UTF-8 text.
    Text(String),
    /// A message whose bytes are not UTF-8 text.
    Bytes(Vec<u8>),
    /// The transport reported an error in place of a message.
    TransportError(String),
}

/// The mathematical value of a [`Received`].
pub enum ReceivedView {
    Text(Seq<char>),
    Bytes(Seq<u8>),
    TransportError(Seq<char>),
}

impl View for Received {
    type V = ReceivedView;

    open spec fn view(&self) -> ReceivedView {
        match *self {
            Received::Text(text) => ReceivedView::Text(text@),
            Received::Bytes(bytes) => ReceivedView::Bytes(bytes@),
            Received::TransportError(message) => ReceivedView::TransportError(message@),
        }
    }
}

impl Received {
    /// Sorts the outcome of one wait on the subscription, in the shape in
    /// which the transport gives it: outside, whether the wait itself
    /// failed, with the transport's words for it; inside, the message as
    /// text, or its bytes where they are not UTF-8.
    pub fn from_outcome(outcome: Result<Result<String, Vec<u8>>, String>) -> (received: Received)
        ensures
            received@ == match outcome {
                Ok(Ok(text)) => ReceivedView::Text(text@),
                Ok(Err(bytes)) => ReceivedView::Bytes(bytes@),
                Err(message) => ReceivedView::TransportError(message@),
            },
    {
        match outcome {
            Ok(Ok(text)) => Received::Text(text),
            Ok(Err(bytes)) => Received::Bytes(bytes),
            Err(message) => Received::TransportError(message),
        }
    }
}

/// A failure that the relay reports and survives.
#[derive(Debug, PartialEq)]
pub enum Failure {
    /// The transport reported an error; the text is the transport's.
    Receive(String),
    /// A message arrived that is not UTF-8 text; the bytes are the message.
    NotText(Vec<u8>),
    /// The event stream refused a broadcast; the text is the event stream's.
    Broadcast(String),
}

/// The mathematical value of a [`Failure`].
pub enum FailureView {
    Receive(Seq<char>),
    NotText(Seq<u8>),
    Broadcast(Seq<char>),
}

impl View for Failure {
    type V = FailureView;

    open spec fn view(&self) -> FailureView {
        match *self {
            Failure::Receive(message) => FailureView::Receive(message@),
            Failure::NotText(bytes) => FailureView::NotText(bytes@),
            Failure::Broadcast(message) => FailureView::Broadcast(message@),
        }
    }
}

/// What the relay asks for after one wait on the subscription. Whatever it
/// is, the next wait follows: no action ends the relay.
#[derive(Debug, PartialEq)]
pub enum Action {
    /// Broadcast `payload` to the listeners of `event`.
    Broadcast { event: String, payload: serde_json::Value },
    /// The message did not decode: broadcast nothing.
    Discard,
    /// Report the failure.
    Report(Failure),
}

/// The mathematical value of an [`Action`].
pub enum ActionView {
    Broadcast { event: Seq<char>, payload: serde_json::Value },
    Discard,
    Report(FailureView),
}

impl View for Action {
    type V = ActionView;

    open spec fn view(&self) -> ActionView {
        match *self {
            Action::Broadcast { event, payload } => ActionView::Broadcast { event: event@, payload },
            Action::Discard => ActionView::Discard,
            Action::Report(failure) => ActionView::Report(failure@),
        }
    }
}

/// The one event name under which the relay broadcasts.
pub open spec fn event_name() -> Seq<char> {
    "bus-message"@
}

/// The action that follows a decoding: one broadcast of the document under
/// the relay's event name where there is a document, none where there is not.
pub open spec fn forwarding(decoded: Option<serde_json::Value>) -> ActionView {
    match decoded {
        Some(payload) => ActionView::Broadcast { event: event_name(), payload },
        None => ActionView::Discard,
    }
}

/// The action that follows one wait on the subscription.
pub open spec fn reaction(received: ReceivedView) -> ActionView {
    match received {
        ReceivedView::Text(text) => forwarding(json_value(text)),
        ReceivedView::Bytes(bytes) => ActionView::Report(FailureView::NotText(bytes)),
        ReceivedView::TransportError(message) => ActionView::Report(FailureView::Receive(message)),
    }
}

/// The relay's event name, as a string.
pub fn event_name_string() -> (name: String)
    ensures
        name@ == event_name(),
{
    "bus-message".to_owned()
}

/// Turns the outcome of a decoding into the relay's action: the document is
/// handed on as it is, under the relay's event name; a message without a
/// document is discarded.
pub fn forward_decoded(decoded: Option<serde_json::Value>) -> (action: Action)
    ensures
        action@ == forwarding(decoded),
{
    match decoded {
        Some(payload) => Action::Broadcast { event: event_name_string(), payload },
        None => Action::Discard,
    }
}

} // verus!
