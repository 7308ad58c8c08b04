//! Round-robin allocation of endpoint indices.
//!
//! The router keeps, for every address, the size of the endpoint pool
//! registered under it together with the index handed out last. Each
//! dispatch advances the index cyclically, so repeated sends to one
//! address walk the whole pool before any endpoint repeats.

use vstd::prelude::*;

verus! {

/// The successor of `current` in the cycle `0 .. total`.
pub open spec fn bump(total: int, current: int) -> int {
    if current + 1 >= total {
        0
    } else {
        current + 1
    }
}

/// The index handed out by the `k`-th call to `next` for an address whose
/// counter starts at `current` over a pool of `total` endpoints.
pub open spec fn bump_iter(total: int, current: int, k: int) -> int
    decreases k,
{
    if k <= 0 {
        current
    } else {
        bump(total, bump_iter(total, current, k - 1))
    }
}

/// Counters are well formed when no address occurs twice, every pool is
/// non-empty, and every last-used index lies inside its pool.
pub open spec fn counters_wf(cs: Seq<(String, (usize, usize))>) -> bool {
    &&& forall|i: int, j: int|
        0 <= i < j < cs.len() ==> (#[trigger] cs[i]).0@ != (#[trigger] cs[j]).0@
    &&& forall|i: int|
        0 <= i < cs.len() ==> 0 < (#[trigger] cs[i]).1.0 && cs[i].1.1 < cs[i].1.0
}

/// Whether some counter is registered under `addr`.
pub open spec fn has_counter(cs: Seq<(String, (usize, usize))>, addr: Seq<char>) -> bool {
    exists|i: int| 0 <= i < cs.len() && (#[trigger] cs[i]).0@ == addr
}

/// Stateful chooser that cycles through the endpoint pool of each
/// address, picking the next index on every dispatch.
pub struct RoundRobin {
    counters: Vec<(String, (usize, usize))>,
}

impl RoundRobin {
    /// The per-address counters: address, pool size, last-used index.
    pub closed spec fn counters(self) -> Seq<(String, (usize, usize))> {
        self.counters@
    }

    pub open spec fn wf(self) -> bool {
        counters_wf(self.counters())
    }

    /// Builds one counter per registry entry, over a pool of that entry's
    /// size, positioned so that the first `next` call yields index 0.
    pub fn new<S>(senders: &Vec<(String, Vec<S>)>) -> (rr: RoundRobin)
        requires
            forall|i: int| 0 <= i < senders@.len() ==> (#[trigger] senders@[i]).1@.len() >= 1,
        ensures
            rr.counters().len() == senders@.len(),
            forall|i: int|
                0 <= i < senders@.len() ==> {
                    &&& (#[trigger] rr.counters()[i]).0@ == senders@[i].0@
                    &&& rr.counters()[i].1.0 == senders@[i].1.len()
                    &&& rr.counters()[i].1.1 == senders@[i].1.len() - 1
                },
    {
        let mut counters: Vec<(String, (usize, usize))> = Vec::new();
        let mut i: usize = 0;
        while i < senders.len()
            invariant
                i <= senders@.len(),
                counters@.len() == i,
                forall|i: int| 0 <= i < senders@.len() ==> (#[trigger] senders@[i]).1@.len() >= 1,
                forall|j: int|
                    0 <= j < i ==> {
                        &&& (#[trigger] counters@[j]).0@ == senders@[j].0@
                        &&& counters@[j].1.0 == senders@[j].1.len()
                        &&& counters@[j].1.1 == senders@[j].1.len() - 1
                    },
            decreases senders@.len() - i,
        {
            let total = senders[i].1.len();
            counters.push((senders[i].0.clone(), (total, total - 1)));
            i = i + 1;
        }
        RoundRobin { counters }
    }

    /// Advances and returns the counter registered under `address`; an
    /// address with no counter yields index 0 and changes nothing.
    pub fn next(&mut self, address: String) -> (idx: usize)
        requires
            old(self).wf(),
        ensures
            final(self).wf(),
            forall|i: int|
                0 <= i < old(self).counters().len() && (#[trigger] old(self).counters()[i]).0@
                    == address@ ==> {
                    &&& idx == bump(
                        old(self).counters()[i].1.0 as int,
                        old(self).counters()[i].1.1 as int,
                    )
                    &&& final(self).counters() == old(self).counters().update(
                        i,
                        (old(self).counters()[i].0, (old(self).counters()[i].1.0, idx)),
                    )
                },
            !has_counter(old(self).counters(), address@) ==> idx == 0 && final(self).counters()
                == old(self).counters(),
    {
        let n = self.counters.len();
        let mut i: usize = 0;
        while i < n
            invariant
                n == self.counters@.len(),
                i <= n,
                self.wf(),
                *self == *old(self),
                forall|j: int| 0 <= j < i ==> (#[trigger] self.counters@[j]).0@ != address@,
            decreases n - i,
        {
            if self.counters[i].0 == address {
                let total = self.counters[i].1.0;
                let current = self.counters[i].1.1;
                let idx = if current + 1 >= total {
                    0
                } else {
                    current + 1
                };
                let entry = self.counters.remove(i);
                self.counters.insert(i, (entry.0, (total, idx)));
                proof {
                    assert(self.counters@ =~= old(self).counters@.update(
                        i as int,
                        (old(self).counters@[i as int].0, (total, idx)),
                    ));
                }
                return idx;
            }
            i = i + 1;
        }
        0
    }
}

/// The counter sequence produced by repeated calls of `next` has a closed
/// form: it climbs from the starting index and wraps once past the pool's
/// end, as long as a full cycle is not exceeded.
proof fn lemma_bump_iter_closed(total: int, current: int, k: int)
    requires
        0 <= current < total,
        0 <= k <= total,
    ensures
        bump_iter(total, current, k) == if current + k < total {
            current + k
        } else {
            current + k - total
        },
    decreases k,
{
    if k > 0 {
        lemma_bump_iter_closed(total, current, k - 1);
    }
}

/// Within one full cycle of dispatches to an address with `total`
/// endpoints, no endpoint index is handed out twice: the `j`-th and the
/// `k`-th call of `next` pick distinct indices whenever both fall in the
/// same window of `total` consecutive calls.
pub proof fn lemma_round_robin_no_repeat(total: int, current: int, j: int, k: int)
    requires
        0 <= current < total,
        1 <= j < k <= total,
    ensures
        bump_iter(total, current, j) != bump_iter(total, current, k),
{
    lemma_bump_iter_closed(total, current, j);
    lemma_bump_iter_closed(total, current, k);
}

/// Within one full cycle of dispatches to an address with `total`
/// endpoints, every endpoint index `0 <= t < total` is handed out by
/// exactly one of the `total` consecutive calls of `next`.
pub proof fn lemma_round_robin_covers(total: int, current: int, t: int)
    requires
        0 <= current < total,
        0 <= t < total,
    ensures
        exists|k: int|
            1 <= k <= total && #[trigger] bump_iter(total, current, k) == t,
{
    let k = if t > current {
        t - current
    } else {
        t + total - current
    };
    lemma_bump_iter_closed(total, current, k);
    assert(bump_iter(total, current, k) == t);
}

} // verus!
