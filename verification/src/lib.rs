//! A minimal actor-hosting and message-routing engine.
//!
//! Actors run independently and exchange values by symbolic address: the
//! router owns a registry mapping each address to the mailboxes mounted
//! under it, merges every actor's control stream into one, and dispatches
//! each routing request either to one endpoint (round-robin across a pool)
//! or to every endpoint (publish).

pub mod channel;
pub mod events;
pub mod round_robin;
pub mod sender;
pub mod system;

pub use events::ActorEvent;
pub use events::SendError;
pub use events::SystemEvent;
pub use round_robin::RoundRobin;
pub use sender::Sender;
pub use std::sync::mpsc::Receiver;
pub use std::sync::mpsc::SyncSender;
pub use system::Actor;
pub use system::RunState;
pub use system::System;
