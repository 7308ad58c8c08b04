//! The send capability handed to an actor: it knows the actor's own
//! address and wraps the actor's control channel toward the router, so
//! that every envelope it emits names its true origin.

use std::sync::mpsc::SyncSender;
use vstd::prelude::*;

use crate::channel::channel_send;
use crate::events::ActorEvent;
use crate::events::SendError;
use crate::events::is_publish_env;
use crate::events::is_send_env;

verus! {

/// An actor's handle for sending messages to other actors by address.
#[derive(Clone)]
#[verifier::reject_recursive_types(T)]
pub struct Sender<T> {
    address: String,
    sender: SyncSender<ActorEvent<T>>,
}

impl<T> Sender<T> {
    /// The address the capability stamps on every envelope as its origin.
    pub closed spec fn address(self) -> Seq<char> {
        self.address@
    }

    /// The control channel every envelope is handed to.
    pub closed spec fn channel(self) -> SyncSender<ActorEvent<T>> {
        self.sender
    }

    pub fn new(address: String, sender: SyncSender<ActorEvent<T>>) -> (s: Sender<T>)
        ensures
            s.address() == address@,
            s.channel() == sender,
    {
        Sender { address, sender }
    }

    /// Asks the router to deliver `value` to one endpoint registered
    /// under `to`. Blocks until the router takes the envelope; fails only
    /// when the routing channel has closed, handing the envelope back.
    pub fn send(&self, to: &str, value: T) -> (r: Result<(), SendError<ActorEvent<T>>>)
        ensures
            r matches Err(e) ==> is_send_env(e.0, self.address(), to@, value),
    {
        let from = self.address.clone();
        let to = to.to_owned();
        match channel_send(&self.sender, ActorEvent::Send(from, to, value)) {
            Ok(()) => Ok(()),
            Err(env) => Err(SendError(env)),
        }
    }

    /// Asks the router to deliver a copy of `value` to every endpoint
    /// registered under `to`. Blocks until the router takes the envelope;
    /// fails only when the routing channel has closed, handing the
    /// envelope back.
    pub fn publish(&self, to: &str, value: T) -> (r: Result<(), SendError<ActorEvent<T>>>)
        ensures
            r matches Err(e) ==> is_publish_env(e.0, self.address(), to@, value),
    {
        let from = self.address.clone();
        let to = to.to_owned();
        match channel_send(&self.sender, ActorEvent::Publish(from, to, value)) {
            Ok(()) => Ok(()),
            Err(env) => Err(SendError(env)),
        }
    }
}

} // verus!
