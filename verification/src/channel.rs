//! Bounded point-to-point mailbox primitive: declarations for the standard
//! library's synchronous channel halves, and the two trusted calls the
//! router and the senders make on them.
//!
//! A mailbox here is a capacity-bounded handoff: sending blocks while the
//! buffer is full (backpressure) and fails only once the receiving side is
//! gone; receiving is polled without blocking.

use std::sync::mpsc::Receiver;
use std::sync::mpsc::SyncSender;
use std::sync::mpsc::TryRecvError;
use vstd::prelude::*;

verus! {

#[verifier::external_type_specification]
#[verifier::external_body]
#[verifier::reject_recursive_types(T)]
pub struct ExSyncSender<T>(SyncSender<T>);

#[verifier::external_type_specification]
#[verifier::external_body]
#[verifier::reject_recursive_types(T)]
pub struct ExReceiver<T>(Receiver<T>);

/// Relies on std::sync::mpsc::SyncSender::clone: it yields another
/// sending handle to the same channel. The handle is opaque, so nothing
/// is promised of the result.
pub assume_specification<T>[ <SyncSender<T> as Clone>::clone ](s: &SyncSender<T>) -> SyncSender<T>;

/// One non-blocking look at a mailbox: a value was waiting, nothing was
/// waiting right now, or the sending side is gone and the buffer drained.
pub enum Poll<T> {
    Received(T),
    Empty,
    Closed,
}

/// Relies on std::sync::mpsc::SyncSender::send: it blocks until the
/// bounded buffer has room, succeeds once the value is handed over, and
/// fails only when the receiver has disconnected, in which case the
/// documentation promises the returned error carries the value back.
/// Whether it succeeds depends on the receiving side, so nothing more is
/// promised of the outcome.
#[verifier::external_body]
pub(crate) fn channel_send<T>(s: &SyncSender<T>, value: T) -> (r: Result<(), T>)
    ensures
        r matches Err(v) ==> v == value,
{
    match s.send(value) {
        Ok(()) => Ok(()),
        Err(std::sync::mpsc::SendError(v)) => Err(v),
    }
}

/// Relies on std::sync::mpsc::Receiver::try_recv: it never blocks, and
/// tells a momentarily empty channel apart from one whose senders are all
/// gone. What comes back depends on other threads, so no outcome is
/// promised.
#[verifier::external_body]
pub(crate) fn channel_try_recv<T>(r: &Receiver<T>) -> (p: Poll<T>)
{
    match r.try_recv() {
        Ok(v) => Poll::Received(v),
        Err(TryRecvError::Empty) => Poll::Empty,
        Err(TryRecvError::Disconnected) => Poll::Closed,
    }
}

} // verus!
