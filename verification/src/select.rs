//! Endpoint-selection policies.
//!
//! A policy picks one endpoint out of a fixed, non-empty ordered sequence of
//! descriptors.  Two policies are built in: `First` always picks position 0,
//! and `RoundRobin` rotates through the sequence by an atomic counter.  The
//! `Selector` sum type closes the set of policies the channel manager can
//! carry; the `Choose` trait is the extension surface a new policy has to
//! fill in.

use std::sync::atomic::AtomicU32;
use std::sync::atomic::Ordering;
use tonic::transport::Endpoint;
use vstd::prelude::*;

verus! {

/// The slot a rotation counter value maps to in a sequence of `n` endpoints:
/// the counter's residue modulo `n`.
pub open spec fn round_robin_index(count: int, n: int) -> int {
    count % n
}

/// A selection policy: pick one endpoint out of a fixed, non-empty ordered
/// sequence, never allocating a new one and never mutating the sequence.
///
/// `selects` says which picks the policy allows; `select` must return an
/// element of the sequence that `selects` allows.
pub trait Choose {
    spec fn selects(&self, endpoints: Seq<Endpoint>, chosen: Endpoint) -> bool;

    fn select<'a>(&self, endpoints: &'a Vec<Endpoint>) -> (chosen: &'a Endpoint)
        requires
            endpoints@.len() >= 1,
        ensures
            exists|i: int| 0 <= i < endpoints@.len() && *chosen == endpoints@[i],
            self.selects(endpoints@, *chosen),
    ;
}

/// The policy that always picks the endpoint at position 0.  It carries no
/// state, so every call picks the same endpoint.
#[derive(Debug)]
pub struct First;

impl Choose for First {
    open spec fn selects(&self, endpoints: Seq<Endpoint>, chosen: Endpoint) -> bool {
        chosen == endpoints[0]
    }

    fn select<'a>(&self, endpoints: &'a Vec<Endpoint>) -> (chosen: &'a Endpoint) {
        &endpoints[0]
    }
}

/// The rotating policy: each call observes one value of a shared counter and
/// picks the endpoint at that value's residue modulo the sequence length.
///
/// The counter is advanced by an atomic fetch-and-increment, so concurrent
/// callers never block one another and never observe the same counter value;
/// it wraps on overflow, which is harmless since only the residue is used.
#[derive(Debug)]
pub struct RoundRobin {
    index: AtomicU32,
}

impl RoundRobin {
    /// A fresh rotation, whose counter starts at the first endpoint.
    pub fn new() -> Self {
        RoundRobin { index: AtomicU32::new(0) }
    }
}

impl Choose for RoundRobin {
    open spec fn selects(&self, endpoints: Seq<Endpoint>, chosen: Endpoint) -> bool {
        exists|c: u32|
            chosen == endpoints[round_robin_index(c as int, endpoints.len() as int)]
    }

    fn select<'a>(&self, endpoints: &'a Vec<Endpoint>) -> (chosen: &'a Endpoint) {
        let count = self.index.fetch_add(1, Ordering::Relaxed);
        let i = index_for_count(count, endpoints.len());
        &endpoints[i]
    }
}

/// The closed set of policies the channel manager can carry.
#[derive(Debug)]
pub enum Selector {
    First(First),
    RoundRobin(RoundRobin),
}

impl Choose for Selector {
    open spec fn selects(&self, endpoints: Seq<Endpoint>, chosen: Endpoint) -> bool {
        match self {
            Selector::First(f) => f.selects(endpoints, chosen),
            Selector::RoundRobin(r) => r.selects(endpoints, chosen),
        }
    }

    fn select<'a>(&self, endpoints: &'a Vec<Endpoint>) -> (chosen: &'a Endpoint) {
        match self {
            Selector::First(f) => f.select(endpoints),
            Selector::RoundRobin(r) => r.select(endpoints),
        }
    }
}

/// The slot a counter value lands on among `n` endpoints.  This is the whole
/// of the round-robin decision once a counter value is in hand: the residue
/// of the count modulo the endpoint count, always a valid position.
pub fn index_for_count(count: u32, n: usize) -> (i: usize)
    requires
        n >= 1,
    ensures
        i == round_robin_index(count as int, n as int),
        i < n,
{
    (count as usize) % n
}

/// Round-robin fairness over one cycle: from a fresh counter, the first `n`
/// counts land on positions `0, 1, ..., n - 1` in exactly that order, no
/// position repeats within the cycle, and count `n` wraps back to position 0.
pub proof fn lemma_round_robin_cycle(n: int)
    requires
        n >= 1,
    ensures
        forall|k: int| 0 <= k < n ==> #[trigger] round_robin_index(k, n) == k,
        forall|k1: int, k2: int|
            0 <= k1 < n && 0 <= k2 < n && k1 != k2 ==> round_robin_index(k1, n)
                != round_robin_index(k2, n),
        round_robin_index(n, n) == 0,
{
    assert forall|k: int| 0 <= k < n implies #[trigger] round_robin_index(k, n) == k by {
        vstd::arithmetic::div_mod::lemma_small_mod(k as nat, n as nat);
    }
    vstd::arithmetic::div_mod::lemma_mod_self_0(n);
}

/// Every count lands on a valid position: whatever value the shared counter
/// has reached, even after wrapping, the selected slot is in `[0, n)`.
pub proof fn lemma_round_robin_index_in_range(count: int, n: int)
    requires
        n >= 1,
        count >= 0,
    ensures
        0 <= round_robin_index(count, n) < n,
{
}

} // verus!
