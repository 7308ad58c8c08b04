//! The two event vocabularies of the engine: what actors emit toward the
//! router, and what the router reports to its caller.

use vstd::prelude::*;

verus! {

/// An event emitted on an actor's control channel during its lifecycle:
/// start and stop notices, and requests to route a payload to another
/// address, either to a single endpoint (`Send`) or to every endpoint
/// registered under the address (`Publish`).
#[derive(Debug)]
pub enum ActorEvent<T> {
    /// The actor at this address has started running.
    Started(String),
    /// Route one payload to a single endpoint: (from, to, payload).
    Send(String, String, T),
    /// Route a copy of the payload to every endpoint: (from, to, payload).
    Publish(String, String, T),
    /// The actor at this address has finished running.
    Stopped(String),
}

/// An externally visible record of routing and lifecycle activity,
/// handed to the observer callback during a run.
#[derive(Debug, Clone, PartialEq)]
pub enum SystemEvent {
    /// An actor at this address started.
    Started(String),
    /// A payload was dispatched: (from, to, endpoint index).
    Forward(String, String, usize),
    /// A routing step failed: (address, reason).
    Error(String, String),
    /// An actor at this address stopped.
    Stopped(String),
}

/// Returned when an envelope could not be handed to the router because
/// the routing channel has closed; it carries the envelope back.
#[derive(Debug)]
pub struct SendError<T>(pub T);

/// Holds whenever `ev` asks to route `payload` from `from` to one
/// endpoint under `to`.
pub open spec fn is_send_env<T>(ev: ActorEvent<T>, from: Seq<char>, to: Seq<char>, payload: T) -> bool {
    match ev {
        ActorEvent::Send(f, t, v) => f@ == from && t@ == to && v == payload,
        _ => false,
    }
}

/// Holds whenever `ev` asks to route `payload` from `from` to every
/// endpoint under `to`.
pub open spec fn is_publish_env<T>(
    ev: ActorEvent<T>,
    from: Seq<char>,
    to: Seq<char>,
    payload: T,
) -> bool {
    match ev {
        ActorEvent::Publish(f, t, v) => f@ == from && t@ == to && v == payload,
        _ => false,
    }
}

/// Holds whenever `ev` is a `Forward` record with the given source,
/// target and endpoint index.
pub open spec fn is_forward(ev: SystemEvent, from: Seq<char>, to: Seq<char>, idx: int) -> bool {
    match ev {
        SystemEvent::Forward(f, t, i) => f@ == from && t@ == to && i == idx,
        _ => false,
    }
}

/// Holds whenever `ev` is an `Error` record with the given address and
/// reason.
pub open spec fn is_error(ev: SystemEvent, addr: Seq<char>, reason: Seq<char>) -> bool {
    match ev {
        SystemEvent::Error(a, r) => a@ == addr && r@ == reason,
        _ => false,
    }
}

} // verus!
