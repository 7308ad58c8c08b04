//! The router: an actor host that owns the address registry, merges every
//! actor's control stream, and dispatches each routing request either to
//! one endpoint of a pool (round-robin) or to every endpoint (publish).

use std::sync::mpsc::Receiver;
use std::sync::mpsc::SyncSender;
use vstd::prelude::*;

use crate::channel::Poll;
use crate::channel::channel_send;
use crate::channel::channel_try_recv;
use crate::events::ActorEvent;
use crate::events::SystemEvent;
use crate::events::is_error;
use crate::events::is_forward;
use crate::round_robin::RoundRobin;
use crate::round_robin::bump;
use crate::round_robin::has_counter;
use crate::sender::Sender;

verus! {

/// The interface an actor supplies: its logic, run once on its own
/// thread with a send capability bound to its address and the receive
/// end of its payload mailbox.
pub trait Actor<T: Send + 'static> {
    fn run(&mut self, sender: Sender<T>, receiver: Receiver<T>);
}

/// A registry is well formed when no address occurs twice and every
/// address has at least one endpoint.
pub open spec fn registry_wf<S>(entries: Seq<(String, Vec<S>)>) -> bool {
    &&& forall|i: int, j: int|
        0 <= i < j < entries.len() ==> (#[trigger] entries[i]).0@ != (#[trigger] entries[j]).0@
    &&& forall|i: int| 0 <= i < entries.len() ==> (#[trigger] entries[i]).1@.len() >= 1
}

/// Whether some endpoint pool is registered under `addr`.
pub open spec fn has_addr<S>(entries: Seq<(String, Vec<S>)>, addr: Seq<char>) -> bool {
    exists|i: int| 0 <= i < entries.len() && (#[trigger] entries[i]).0@ == addr
}

/// The allocator mirrors the registry entry by entry: same addresses in
/// the same order, each over a pool of the entry's size.
pub open spec fn rr_matches<S>(rr: RoundRobin, entries: Seq<(String, Vec<S>)>) -> bool {
    &&& rr.counters().len() == entries.len()
    &&& forall|i: int|
        0 <= i < entries.len() ==> {
            &&& (#[trigger] rr.counters()[i]).0@ == entries[i].0@
            &&& rr.counters()[i].1.0 == entries[i].1@.len()
        }
}

/// What one dispatch step leaves behind, for every inbound envelope:
/// the records handed to the observer and the allocator's evolution.
///
/// Lifecycle notices pass through unchanged. A `Send` advances the
/// allocator for its target address and yields a `Forward` carrying the
/// chosen endpoint index (0 for an unregistered address), then an
/// `Error` naming the address: "does not exist" when nothing is
/// registered under it, "send error" when the chosen endpoint's mailbox
/// was gone; a successful handoff adds nothing. A `Publish` leaves the
/// allocator alone, yields one `Forward` with index 0, and then either
/// the "does not exist" `Error` or one "send error" `Error` per failed
/// endpoint, never aborting the remaining deliveries.
pub open spec fn dispatch_post<T>(
    entries: Seq<(String, Vec<SyncSender<T>>)>,
    rr0: RoundRobin,
    rr1: RoundRobin,
    event: ActorEvent<T>,
    events: Seq<SystemEvent>,
) -> bool {
    match event {
        ActorEvent::Started(a) => {
            &&& events.len() == 1
            &&& events[0] == SystemEvent::Started(a)
            &&& rr1.counters() == rr0.counters()
        },
        ActorEvent::Stopped(a) => {
            &&& events.len() == 1
            &&& events[0] == SystemEvent::Stopped(a)
            &&& rr1.counters() == rr0.counters()
        },
        ActorEvent::Send(from, to, v) => {
            &&& events.len() >= 1
            &&& (!has_addr(entries, to@) ==> {
                &&& events.len() == 2
                &&& is_forward(events[0], from@, to@, 0)
                &&& is_error(events[1], to@, "does not exist"@)
                &&& rr1.counters() == rr0.counters()
            })
            &&& (forall|i: int|
                0 <= i < entries.len() && (#[trigger] entries[i]).0@ == to@ ==> {
                    let total = entries[i].1@.len() as int;
                    let idx = bump(total, rr0.counters()[i].1.1 as int);
                    &&& is_forward(events[0], from@, to@, idx)
                    &&& rr1.counters() == rr0.counters().update(
                        i,
                        (rr0.counters()[i].0, (rr0.counters()[i].1.0, idx as usize)),
                    )
                    &&& (events.len() == 1 || (events.len() == 2 && is_error(
                        events[1],
                        to@,
                        "send error"@,
                    )))
                })
        },
        ActorEvent::Publish(from, to, v) => {
            &&& events.len() >= 1
            &&& is_forward(events[0], from@, to@, 0)
            &&& rr1.counters() == rr0.counters()
            &&& (!has_addr(entries, to@) ==> events.len() == 2 && is_error(
                events[1],
                to@,
                "does not exist"@,
            ))
            &&& (forall|i: int|
                0 <= i < entries.len() && (#[trigger] entries[i]).0@ == to@ ==> {
                    &&& events.len() <= 1 + entries[i].1@.len()
                    &&& (forall|k: int|
                        1 <= k < events.len() ==> is_error(
                            #[trigger] events[k],
                            to@,
                            "send error"@,
                        ))
                })
        },
    }
}

/// Finds the registry entry holding `addr`, if one exists.
fn find_entry<S>(entries: &Vec<(String, Vec<S>)>, addr: &String) -> (r: Option<usize>)
    ensures
        match r {
            Some(i) => i < entries@.len() && entries@[i as int].0@ == addr@,
            None => !has_addr(entries@, addr@),
        },
{
    let n = entries.len();
    let mut i: usize = 0;
    while i < n
        invariant
            n == entries@.len(),
            i <= n,
            forall|j: int| 0 <= j < i ==> (#[trigger] entries@[j]).0@ != addr@,
        decreases n - i,
    {
        if entries[i].0 == *addr {
            return Some(i);
        }
        i = i + 1;
    }
    None
}

/// Routes one inbound envelope: looks its target up in the registry,
/// advances the round-robin allocator for a `Send`, hands the payload to
/// the chosen endpoint (or a copy to every endpoint for a `Publish`),
/// and returns the observable records of what happened, in order.
pub fn dispatch<T: Clone>(
    senders: &Vec<(String, Vec<SyncSender<T>>)>,
    rr: &mut RoundRobin,
    event: ActorEvent<T>,
) -> (events: Vec<SystemEvent>)
    requires
        registry_wf(senders@),
        old(rr).wf(),
        rr_matches(*old(rr), senders@),
    ensures
        final(rr).wf(),
        rr_matches(*final(rr), senders@),
        dispatch_post(senders@, *old(rr), *final(rr), event, events@),
{
    let mut events: Vec<SystemEvent> = Vec::new();
    match event {
        ActorEvent::Started(a) => {
            events.push(SystemEvent::Started(a));
        },
        ActorEvent::Stopped(a) => {
            events.push(SystemEvent::Stopped(a));
        },
        ActorEvent::Send(from, to, value) => {
            proof {
                if has_counter(rr.counters(), to@) {
                    let i = choose|i: int|
                        0 <= i < rr.counters().len() && rr.counters()[i].0@ == to@;
                    assert((senders@[i]).0@ == to@);
                    assert(has_addr(senders@, to@));
                }
            }
            let idx = rr.next(to.clone());
            events.push(SystemEvent::Forward(from, to.clone(), idx));
            match find_entry(senders, &to) {
                None => {
                    events.push(SystemEvent::Error(to, "does not exist".to_owned()));
                },
                Some(i) => {
                    match channel_send(&senders[i].1[idx], value) {
                        Ok(()) => {},
                        Err(_) => {
                            events.push(SystemEvent::Error(to, "send error".to_owned()));
                        },
                    }
                },
            }
        },
        ActorEvent::Publish(from, to, value) => {
            events.push(SystemEvent::Forward(from, to.clone(), 0));
            match find_entry(senders, &to) {
                None => {
                    events.push(SystemEvent::Error(to, "does not exist".to_owned()));
                },
                Some(i) => {
                    let n = senders[i].1.len();
                    let mut k: usize = 0;
                    while k < n
                        invariant
                            i < senders@.len(),
                            senders@[i as int].0@ == to@,
                            n == senders@[i as int].1@.len(),
                            k <= n,
                            events@.len() >= 1,
                            events@.len() <= 1 + k,
                            is_forward(events@[0], from@, to@, 0),
                            forall|m: int|
                                1 <= m < events@.len() ==> is_error(
                                    #[trigger] events@[m],
                                    to@,
                                    "send error"@,
                                ),
                        decreases n - k,
                    {
                        match channel_send(&senders[i].1[k], value.clone()) {
                            Ok(()) => {},
                            Err(_) => {
                                events.push(SystemEvent::Error(to.clone(), "send error".to_owned()));
                            },
                        }
                        k = k + 1;
                    }
                },
            }
        },
    }
    events
}

/// An actor host and message-routing system: the registry of address to
/// endpoint pool, and the receive ends of every mounted actor's control
/// channel.
#[verifier::reject_recursive_types(T)]
pub struct System<T> {
    receivers: Vec<Receiver<ActorEvent<T>>>,
    senders: Vec<(String, Vec<SyncSender<T>>)>,
}

impl<T: Send + Clone + 'static> System<T> {
    /// The registry: each mounted address with its endpoint pool, in
    /// order of first mounting.
    pub closed spec fn registry(self) -> Seq<(String, Vec<SyncSender<T>>)> {
        self.senders@
    }

    /// The control channels of the mounted actors, in mounting order.
    pub closed spec fn controls(self) -> Seq<Receiver<ActorEvent<T>>> {
        self.receivers@
    }

    pub open spec fn wf(self) -> bool {
        registry_wf(self.registry())
    }

    pub fn new() -> (s: System<T>)
        ensures
            s.wf(),
            s.registry().len() == 0,
            s.controls().len() == 0,
    {
        let receivers = Vec::new();
        let senders = Vec::new();
        System { receivers, senders }
    }

    /// Registers one mounted actor: its payload mailbox joins the pool
    /// under `address` (a new pool if the address is new), and its
    /// control channel joins the streams the run loop will merge.
    pub fn mount(&mut self, address: &str, endpoint: SyncSender<T>, control: Receiver<ActorEvent<T>>)
        requires
            old(self).wf(),
        ensures
            final(self).wf(),
            final(self).controls() == old(self).controls().push(control),
            has_addr(old(self).registry(), address@) ==> {
                &&& final(self).registry().len() == old(self).registry().len()
                &&& forall|i: int|
                    0 <= i < old(self).registry().len()
                        && (#[trigger] old(self).registry()[i]).0@ == address@ ==> {
                        &&& final(self).registry()[i].0 == old(self).registry()[i].0
                        &&& final(self).registry()[i].1@ == old(self).registry()[i].1@.push(
                            endpoint,
                        )
                        &&& forall|j: int|
                            0 <= j < old(self).registry().len() && j != i
                                ==> final(self).registry()[j] == old(self).registry()[j]
                    }
            },
            !has_addr(old(self).registry(), address@) ==> {
                &&& final(self).registry().len() == old(self).registry().len() + 1
                &&& forall|j: int|
                    0 <= j < old(self).registry().len()
                        ==> final(self).registry()[j] == old(self).registry()[j]
                &&& final(self).registry().last().0@ == address@
                &&& final(self).registry().last().1@.len() == 1
                &&& final(self).registry().last().1@[0] == endpoint
            },
    {
        let address = address.to_owned();
        self.receivers.push(control);
        match find_entry(&self.senders, &address) {
            Some(i) => {
                let mut entry = self.senders.remove(i);
                entry.1.push(endpoint);
                self.senders.insert(i, entry);
                proof {
                    assert(self.senders@ =~= old(self).senders@.update(
                        i as int,
                        self.senders@[i as int],
                    ));
                }
            },
            None => {
                let mut pool: Vec<SyncSender<T>> = Vec::new();
                pool.push(endpoint);
                self.senders.push((address, pool));
            },
        }
    }

    /// Freezes the registry and begins a run: no further mounts are
    /// possible, and the round-robin allocator is initialized from the
    /// registry snapshot, positioned so that the first dispatch to each
    /// address picks endpoint index 0. The caller then polls the
    /// returned state until it is drained.
    pub fn start(self) -> (r: RunState<T>)
        requires
            self.wf(),
        ensures
            r.wf(),
            r.registry() == self.registry(),
            r.controls() == self.controls(),
            forall|i: int|
                0 <= i < r.registry().len() ==> (#[trigger] r.allocator().counters()[i]).1.1
                    == r.registry()[i].1@.len() - 1,
    {
        let System { receivers, senders } = self;
        let rr = RoundRobin::new(&senders);
        proof {
            assert forall|i: int, j: int|
                0 <= i < j < rr.counters().len() implies (rr.counters()[i]).0@ != (
            rr.counters()[j]).0@ by {
                assert((senders@[i]).0@ != (senders@[j]).0@);
            }
        }
        RunState { receivers, senders, rr }
    }
}

/// `xs` is `ys` with zero or more elements removed, order kept.
pub open spec fn subsequence_of<A>(xs: Seq<A>, ys: Seq<A>) -> bool
    decreases ys.len(),
{
    if xs.len() == 0 {
        true
    } else if ys.len() == 0 {
        false
    } else if xs[0] == ys[0] {
        subsequence_of(xs.skip(1), ys.skip(1))
    } else {
        subsequence_of(xs, ys.skip(1))
    }
}

/// Every sequence is a subsequence of itself.
proof fn lemma_subsequence_refl<A>(s: Seq<A>)
    ensures
        subsequence_of(s, s),
    decreases s.len(),
{
    if s.len() > 0 {
        lemma_subsequence_refl(s.skip(1));
    }
}

/// Removing one element of a subsequence leaves a subsequence.
proof fn lemma_subsequence_remove<A>(s: Seq<A>, t: Seq<A>, i: int)
    requires
        subsequence_of(s, t),
        0 <= i < s.len(),
    ensures
        subsequence_of(s.remove(i), t),
    decreases t.len(),
{
    if s.remove(i).len() == 0 {
    } else if s[0] == t[0] {
        if i == 0 {
            assert(s.remove(0) =~= s.skip(1));
            let x = s.skip(1);
            if x[0] == t[0] {
                lemma_subsequence_remove(x, t.skip(1), 0);
                assert(x.remove(0) =~= x.skip(1));
            }
        } else {
            assert(s.remove(i)[0] == s[0]);
            assert(s.remove(i).skip(1) =~= s.skip(1).remove(i - 1));
            lemma_subsequence_remove(s.skip(1), t.skip(1), i - 1);
        }
    } else {
        lemma_subsequence_remove(s, t.skip(1), i);
        let r = s.remove(i);
        if r[0] == t[0] {
            lemma_subsequence_remove(r, t.skip(1), 0);
            assert(r.remove(0) =~= r.skip(1));
        }
    }
}

/// A running system: the frozen registry, the live control channels not
/// yet disconnected, and the allocator state. Produced by `start`,
/// advanced by `poll_once` until `drained`.
#[verifier::reject_recursive_types(T)]
pub struct RunState<T> {
    receivers: Vec<Receiver<ActorEvent<T>>>,
    senders: Vec<(String, Vec<SyncSender<T>>)>,
    rr: RoundRobin,
}

impl<T: Send + Clone + 'static> RunState<T> {
    /// The frozen registry the run dispatches against.
    pub closed spec fn registry(self) -> Seq<(String, Vec<SyncSender<T>>)> {
        self.senders@
    }

    /// The control channels still live, in mounting order.
    pub closed spec fn controls(self) -> Seq<Receiver<ActorEvent<T>>> {
        self.receivers@
    }

    /// The round-robin allocator's current state.
    pub closed spec fn allocator(self) -> RoundRobin {
        self.rr
    }

    pub open spec fn wf(self) -> bool {
        &&& registry_wf(self.registry())
        &&& self.allocator().wf()
        &&& rr_matches(self.allocator(), self.registry())
    }

    /// A run is drained once every actor's control channel has
    /// disconnected; the driving loop then stops.
    pub fn drained(&self) -> (b: bool)
        ensures
            b == (self.controls().len() == 0),
    {
        self.receivers.len() == 0
    }

    /// One pass of the merge loop: polls every live control channel once
    /// without blocking, dispatches each envelope found waiting, hands
    /// the resulting records to `f` in arrival order, and drops every
    /// channel whose actor has finished. The registry never changes; the
    /// surviving control channels are the old ones in the old order,
    /// less those dropped — a channel, once dropped, never returns.
    pub fn poll_once<F: Fn(SystemEvent) -> ()>(&mut self, f: &F)
        requires
            old(self).wf(),
            forall|ev: SystemEvent| #[trigger] call_requires(*f, (ev,)),
        ensures
            final(self).wf(),
            final(self).registry() == old(self).registry(),
            final(self).controls().len() <= old(self).controls().len(),
            subsequence_of(final(self).controls(), old(self).controls()),
    {
        proof {
            lemma_subsequence_refl(self.receivers@);
        }
        let mut i: usize = 0;
        while i < self.receivers.len()
            invariant
                registry_wf(self.senders@),
                self.rr.wf(),
                rr_matches(self.rr, self.senders@),
                forall|ev: SystemEvent| #[trigger] call_requires(*f, (ev,)),
                i <= self.receivers@.len(),
                self.senders@ == old(self).senders@,
                self.receivers@.len() <= old(self).receivers@.len(),
                subsequence_of(self.receivers@, old(self).receivers@),
            decreases self.receivers@.len() - i,
        {
            match channel_try_recv(&self.receivers[i]) {
                Poll::Received(event) => {
                    let mut events = dispatch(&self.senders, &mut self.rr, event);
                    while events.len() > 0
                        invariant
                            forall|ev: SystemEvent| #[trigger] call_requires(*f, (ev,)),
                        decreases events@.len(),
                    {
                        let ev = events.remove(0);
                        f(ev);
                    }
                    i = i + 1;
                },
                Poll::Empty => {
                    i = i + 1;
                },
                Poll::Closed => {
                    proof {
                        lemma_subsequence_remove(self.receivers@, old(self).receivers@, i as int);
                    }
                    self.receivers.remove(i);
                },
            }
        }
    }
}

} // verus!
