//! Reading the events of the realtime connection.
use vstd::prelude::*;
use vstd::string::*;
use crate::models::response::{StateResponse, WebsocketEvent};
use crate::text::concat_str;

verus! {

/// One JSON value of an event's payload: whether it is an object, and its
/// JSON text.
#[derive(Debug, Clone)]
pub struct PayloadValue {
    pub is_object: bool,
    pub text: String,
}

/// The payload of an event: JSON values, or anything else, given by its
/// debug rendering.
#[derive(Debug, Clone)]
pub enum SocketPayload {
    Text(Vec<PayloadValue>),
    Other(String),
}

/// What to do with a `state-update` event.
#[derive(Debug)]
pub enum StateUpdateDecision {
    /// No value of the payload is an object: nothing to report.
    Ignore,
    /// Decode the value at this index as the player's state and hand the
    /// outcome to `state_update_event`.
    Decode(usize),
    /// Report this event as it is.
    Emit(WebsocketEvent),
}

/// The index of the first object among `values`, if any.
pub fn find_first_object(values: &Vec<PayloadValue>) -> (r: Option<usize>)
    ensures
        r matches Some(i) ==> i < values@.len() && values@[i as int].is_object
            && forall|j: int| 0 <= j < i ==> !values@[j].is_object,
        r is None ==> forall|j: int| 0 <= j < values@.len() ==> !values@[j].is_object,
{
    let mut i: usize = 0;
    while i < values.len()
        invariant
            i <= values@.len(),
            forall|j: int| 0 <= j < i ==> !values@[j].is_object,
        decreases values@.len() - i,
    {
        if values[i].is_object {
            return Some(i);
        }
        i = i + 1;
    }
    None
}

/// What a `state-update` event calls for. Of JSON values, the first object
/// is decoded (none: nothing is reported); any other payload is reported as
/// an error that shows it.
pub fn state_update_decision(payload: &SocketPayload) -> (d: StateUpdateDecision)
    ensures
        payload matches SocketPayload::Text(values) ==> {
            &&& (d matches StateUpdateDecision::Decode(i) ==> i < values@.len() && values@[i as int].is_object
                && forall|j: int| 0 <= j < i ==> !values@[j].is_object)
            &&& (d is Ignore <==> forall|j: int| 0 <= j < values@.len() ==> !values@[j].is_object)
            &&& (d is Decode || d is Ignore)
        },
        payload matches SocketPayload::Other(debug) ==> (d matches StateUpdateDecision::Emit(WebsocketEvent::Error(m))
            && m@ == "Unexpected payload for state-update: "@ + debug@),
{
    match payload {
        SocketPayload::Text(values) => {
            match find_first_object(values) {
                Some(i) => StateUpdateDecision::Decode(i),
                None => StateUpdateDecision::Ignore,
            }
        },
        SocketPayload::Other(debug) => {
            let m = concat_str("Unexpected payload for state-update: ", debug.as_str());
            StateUpdateDecision::Emit(WebsocketEvent::Error(m))
        },
    }
}

/// The event for a decoded state: the state itself, or the decoding error's text.
pub fn state_update_event(decoded: Result<StateResponse, String>) -> (e: WebsocketEvent)
    ensures
        decoded matches Ok(state) ==> e == WebsocketEvent::StateUpdate(state),
        decoded matches Err(m) ==> e == WebsocketEvent::Error(m),
{
    match decoded {
        Ok(state) => WebsocketEvent::StateUpdate(state),
        Err(m) => WebsocketEvent::Error(m),
    }
}

/// The event for an `error` event: the JSON text of its first value, or
/// `Unknown error` when there is none; any other payload by its debug rendering.
pub fn error_event(payload: &SocketPayload) -> (e: WebsocketEvent)
    ensures
        payload matches SocketPayload::Text(values) ==> (e matches WebsocketEvent::Error(m) && if values@.len() > 0 {
            m@ == values@[0].text@
        } else {
            m@ == "Unknown error"@
        }),
        payload matches SocketPayload::Other(debug) ==> (e matches WebsocketEvent::Error(m) && m@ == debug@),
{
    match payload {
        SocketPayload::Text(values) => {
            if values.len() > 0 {
                WebsocketEvent::Error(values[0].text.clone())
            } else {
                WebsocketEvent::Error(String::from_str("Unknown error"))
            }
        },
        SocketPayload::Other(debug) => WebsocketEvent::Error(debug.clone()),
    }
}

} // verus!
