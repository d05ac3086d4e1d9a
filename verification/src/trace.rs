//! What a listener sees over a whole run of the relay, stated over the
//! sequence of things that the transport handed over.

use vstd::prelude::*;
use crate::event::{event_name, reaction, ActionView, ReceivedView};
use crate::json::json_value;

verus! {

/// The document that a received thing carries: that of its text, where it is
/// text and the text holds one.
pub open spec fn document_of(received: ReceivedView) -> Option<serde_json::Value> {
    match received {
        ReceivedView::Text(text) => json_value(text),
        _ => None,
    }
}

/// What a listener sees of an action: the payload of a broadcast, and
/// nothing of any other action.
pub open spec fn payload_of(action: ActionView) -> Option<serde_json::Value> {
    match action {
        ActionView::Broadcast { event, payload } => Some(payload),
        _ => None,
    }
}

/// The actions of a relay that received `inputs` in this order: one for
/// each, in the same order.
pub open spec fn reactions(inputs: Seq<ReceivedView>) -> Seq<ActionView> {
    inputs.map_values(|received: ReceivedView| reaction(received))
}

/// What a listener sees of `actions`, in the order of the actions.
pub open spec fn broadcasts(actions: Seq<ActionView>) -> Seq<serde_json::Value> {
    actions.filter_map(|action: ActionView| payload_of(action))
}

/// The documents that `inputs` carry, in the order of `inputs`.
pub open spec fn documents(inputs: Seq<ReceivedView>) -> Seq<serde_json::Value> {
    inputs.filter_map(|received: ReceivedView| document_of(received))
}

/// Text that holds a document is answered by one broadcast of that document
/// under the relay's event name.
pub proof fn law_document_is_broadcast_once(text: Seq<char>)
    requires
        json_value(text) is Some,
    ensures
        reaction(ReceivedView::Text(text)) == (ActionView::Broadcast {
            event: event_name(),
            payload: json_value(text).unwrap(),
        }),
        broadcasts(reactions(seq![ReceivedView::Text(text)])) == seq![json_value(text).unwrap()],
{
    let inputs = seq![ReceivedView::Text(text)];
    law_broadcasts_in_receive_order(inputs);
    assert(documents(inputs.drop_last()) =~= Seq::<serde_json::Value>::empty());
    assert(documents(inputs) =~= seq![json_value(text).unwrap()]);
}

/// Whatever carries no document is answered by no broadcast, and text
/// without a document by nothing at all.
pub proof fn law_no_document_no_broadcast(received: ReceivedView)
    requires
        document_of(received) is None,
    ensures
        !(reaction(received) is Broadcast),
        received is Text ==> reaction(received) == ActionView::Discard,
        broadcasts(reactions(seq![received])) == Seq::<serde_json::Value>::empty(),
{
    let inputs = seq![received];
    law_broadcasts_in_receive_order(inputs);
    assert(documents(inputs.drop_last()) =~= Seq::<serde_json::Value>::empty());
    assert(documents(inputs) =~= Seq::<serde_json::Value>::empty());
}

/// Every broadcast of a run goes out under the relay's event name.
pub proof fn law_one_event_name(inputs: Seq<ReceivedView>, i: int)
    requires
        0 <= i < inputs.len(),
        reactions(inputs)[i] is Broadcast,
    ensures
        reactions(inputs)[i]->event == event_name(),
{
}

/// Each received thing is answered by one action, and the broadcasts of a
/// run are the documents that were received, each once, in the order in
/// which they were received.
pub proof fn law_broadcasts_in_receive_order(inputs: Seq<ReceivedView>)
    ensures
        reactions(inputs).len() == inputs.len(),
        broadcasts(reactions(inputs)) == documents(inputs),
    decreases inputs.len(),
{
    if inputs.len() > 0 {
        let front = inputs.drop_last();
        law_broadcasts_in_receive_order(front);
        assert(reactions(inputs).drop_last() =~= reactions(front));
        assert(payload_of(reactions(inputs).last()) == document_of(inputs.last()));
    }
}

/// A run in two parts is seen as the first part's broadcasts, then the
/// second's: nothing is held back, merged or moved.
pub proof fn law_broadcasts_of_parts(first: Seq<ReceivedView>, second: Seq<ReceivedView>)
    ensures
        broadcasts(reactions(first + second)) == broadcasts(reactions(first)) + broadcasts(
            reactions(second),
        ),
{
    law_broadcasts_in_receive_order(first + second);
    law_broadcasts_in_receive_order(first);
    law_broadcasts_in_receive_order(second);
    lemma_documents_of_parts(first, second);
}

/// The documents of a run in two parts are those of the first part, then
/// those of the second.
proof fn lemma_documents_of_parts(first: Seq<ReceivedView>, second: Seq<ReceivedView>)
    ensures
        documents(first + second) == documents(first) + documents(second),
    decreases second.len(),
{
    if second.len() == 0 {
        assert(first + second =~= first);
        assert(documents(first) + documents(second) =~= documents(first));
    } else {
        let front = second.drop_last();
        lemma_documents_of_parts(first, front);
        assert((first + second).drop_last() =~= first + front);
        assert((first + second).last() == second.last());
        match document_of(second.last()) {
            Some(document) => {
                assert(documents(first + second) =~= documents(first) + documents(second));
            },
            None => {},
        }
    }
}

/// Whether `positions` names, in rising order, the places of `inputs` that
/// carry a document: each of them, once, and no other place.
pub open spec fn places_of_documents(inputs: Seq<ReceivedView>, positions: Seq<int>) -> bool {
    &&& forall|k: int|
        0 <= k < positions.len() ==> 0 <= #[trigger] positions[k] < inputs.len() && document_of(
            inputs[positions[k]],
        ) is Some
    &&& forall|j: int, k: int|
        0 <= j < k < positions.len() ==> #[trigger] positions[j] < #[trigger] positions[k]
    &&& forall|i: int|
        0 <= i < inputs.len() && document_of(#[trigger] inputs[i]) is Some ==> exists|k: int|
            0 <= k < positions.len() && #[trigger] positions[k] == i
}

/// The broadcasts of a run are a subsequence of what was received: there
/// are places in `inputs`, in rising order, that are exactly the places
/// with a document, and the broadcasts are the documents at these places,
/// one after the other.
pub proof fn law_broadcasts_are_the_decoded_subsequence(inputs: Seq<ReceivedView>) -> (positions:
    Seq<int>)
    ensures
        places_of_documents(inputs, positions),
        broadcasts(reactions(inputs)).len() == positions.len(),
        forall|k: int|
            0 <= k < positions.len() ==> #[trigger] broadcasts(reactions(inputs))[k] == document_of(
                inputs[positions[k]],
            ).unwrap(),
    decreases inputs.len(),
{
    law_broadcasts_in_receive_order(inputs);
    if inputs.len() == 0 {
        Seq::<int>::empty()
    } else {
        let front = inputs.drop_last();
        let last = inputs.len() - 1;
        let before = law_broadcasts_are_the_decoded_subsequence(front);
        law_broadcasts_in_receive_order(front);
        assert forall|k: int| 0 <= k < before.len() implies inputs[#[trigger] before[k]]
            == front[before[k]] by {}
        match document_of(inputs.last()) {
            Some(document) => {
                let positions = before.push(last);
                assert(documents(inputs) =~= documents(front).push(document));
                assert forall|i: int|
                    0 <= i < inputs.len() && document_of(#[trigger] inputs[i]) is Some implies exists|
                    k: int,
                | 0 <= k < positions.len() && #[trigger] positions[k] == i by {
                    if i < last {
                        assert(inputs[i] == front[i]);
                        let k = choose|k: int| 0 <= k < before.len() && #[trigger] before[k] == i;
                        assert(positions[k] == i);
                    } else {
                        assert(positions[before.len() as int] == i);
                    }
                }
                positions
            },
            None => {
                assert(documents(inputs) =~= documents(front));
                assert forall|i: int|
                    0 <= i < inputs.len() && document_of(#[trigger] inputs[i]) is Some implies exists|
                    k: int,
                | 0 <= k < before.len() && #[trigger] before[k] == i by {
                    assert(i < last);
                    assert(inputs[i] == front[i]);
                }
                before
            },
        }
    }
}

/// What carries no document leaves no trace: a listener sees the run as if
/// it had not been received, and what comes after it is served all the same.
pub proof fn law_undecodable_leaves_no_trace(
    before: Seq<ReceivedView>,
    received: ReceivedView,
    after: Seq<ReceivedView>,
)
    requires
        document_of(received) is None,
    ensures
        broadcasts(reactions(before + seq![received] + after)) == broadcasts(
            reactions(before + after),
        ),
{
    law_no_document_no_broadcast(received);
    law_broadcasts_of_parts(before + seq![received], after);
    law_broadcasts_of_parts(before, seq![received]);
    law_broadcasts_of_parts(before, after);
    assert(broadcasts(reactions(before)) + Seq::<serde_json::Value>::empty() =~= broadcasts(
        reactions(before),
    ));
}

/// A transport error is answered by a report and nothing else, and the
/// message that follows it is broadcast as if nothing had happened.
pub proof fn law_error_then_message(error: Seq<char>, text: Seq<char>)
    requires
        json_value(text) is Some,
    ensures
        reactions(seq![ReceivedView::TransportError(error), ReceivedView::Text(text)]) == seq![
            ActionView::Report(crate::event::FailureView::Receive(error)),
            ActionView::Broadcast { event: event_name(), payload: json_value(text).unwrap() },
        ],
        broadcasts(
            reactions(seq![ReceivedView::TransportError(error), ReceivedView::Text(text)]),
        ) == seq![json_value(text).unwrap()],
{
    let failed = seq![ReceivedView::TransportError(error)];
    let arrived = seq![ReceivedView::Text(text)];
    let inputs = seq![ReceivedView::TransportError(error), ReceivedView::Text(text)];
    assert(inputs =~= failed + arrived);
    assert(reactions(inputs) =~= seq![
        ActionView::Report(crate::event::FailureView::Receive(error)),
        ActionView::Broadcast { event: event_name(), payload: json_value(text).unwrap() },
    ]);
    law_broadcasts_of_parts(failed, arrived);
    law_no_document_no_broadcast(ReceivedView::TransportError(error));
    law_document_is_broadcast_once(text);
}

} // verus!
