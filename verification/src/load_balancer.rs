//! Backend selection: the strategy enum, its name parsing, and the selector
//! with its shared round-robin counter.

use vstd::prelude::*;

use crate::strutil::{spec_lowercase, to_lowercase, str_eq};

verus! {

/// How the selector picks among healthy backends.
///
/// `LeastConnections` and `WeightedRoundRobin` are accepted names but
/// currently degrade to round-robin selection: no connection-count table or
/// weight structure exists yet.
#[derive(Debug, Clone, Copy, PartialEq, Eq, Structural)]
pub enum LoadBalancerStrategy {
    RoundRobin,
    Random,
    LeastConnections,
    WeightedRoundRobin,
}

/// The strategy a (lower-cased) configuration name denotes; any unrecognized
/// name falls back to round robin.
pub open spec fn spec_strategy_of(t: Seq<char>) -> LoadBalancerStrategy {
    if t == "random"@ {
        LoadBalancerStrategy::Random
    } else if t == "least_connections"@ {
        LoadBalancerStrategy::LeastConnections
    } else if t == "weighted_round_robin"@ {
        LoadBalancerStrategy::WeightedRoundRobin
    } else {
        LoadBalancerStrategy::RoundRobin
    }
}

impl LoadBalancerStrategy {
    /// Parses a strategy name case-insensitively, with round robin as the
    /// default for unrecognized values.
    pub fn from_name(s: &str) -> (r: LoadBalancerStrategy)
        ensures
            r == spec_strategy_of(spec_lowercase(s@)),
    {
        let lower = to_lowercase(s);
        if str_eq(lower.as_str(), "random") {
            LoadBalancerStrategy::Random
        } else if str_eq(lower.as_str(), "least_connections") {
            LoadBalancerStrategy::LeastConnections
        } else if str_eq(lower.as_str(), "weighted_round_robin") {
            LoadBalancerStrategy::WeightedRoundRobin
        } else {
            LoadBalancerStrategy::RoundRobin
        }
    }
}

/// The selection counter after one round-robin step: it increments and wraps.
pub open spec fn spec_next_counter(c: u64) -> u64 {
    if c == u64::MAX {
        0
    } else {
        (c + 1) as u64
    }
}

/// Picks a backend for each request.  The counter is shared state for the
/// lifetime of the owning instance; it is never rebased when the healthy set
/// changes.
pub struct LoadBalancer {
    pub backends: Vec<String>,
    pub strategy: LoadBalancerStrategy,
    pub current_index: u64,
}

impl LoadBalancer {
    /// Builds a selector over a copy of `backends` with the given strategy
    /// and a fresh counter.
    pub fn with_strategy(backends: &Vec<String>, strategy: LoadBalancerStrategy) -> (r:
        LoadBalancer)
        ensures
            r.backends@ == backends@,
            r.strategy == strategy,
            r.current_index == 0,
    {
        let mut copied: Vec<String> = Vec::new();
        let mut i: usize = 0;
        while i < backends.len()
            invariant
                i <= backends@.len(),
                copied@ == backends@.subrange(0, i as int),
            decreases backends@.len() - i,
        {
            copied.push(backends[i].clone());
            proof {
                assert(copied@ =~= backends@.subrange(0, i + 1));
            }
            i += 1;
        }
        proof {
            assert(backends@.subrange(0, backends@.len() as int) =~= backends@);
        }
        LoadBalancer { backends: copied, strategy, current_index: 0 }
    }

    /// Picks the next backend from the healthy list, or nothing when the
    /// list is empty — deterministically, for every strategy.
    ///
    /// Round robin (and the strategies that degrade to it) consumes one
    /// counter step and returns the entry at the old counter value modulo the
    /// list length; the random strategy derives its index from a coarse clock
    /// reading and leaves the counter alone.
    pub fn get_backend(&mut self, healthy: &Vec<String>) -> (r: Option<String>)
        ensures
            healthy@.len() == 0 <==> r is None,
            healthy@.len() == 0 ==> *old(self) == *final(self),
            final(self).backends == old(self).backends,
            final(self).strategy == old(self).strategy,
            r is Some ==> exists|i: int|
                0 <= i < healthy@.len() && r == Some(#[trigger] healthy@[i]),
            healthy@.len() > 0 && !(old(self).strategy is Random) ==> r == Some(
                healthy@[old(self).current_index as int % healthy@.len() as int],
            ) && final(self).current_index == spec_next_counter(old(self).current_index),
            healthy@.len() > 0 && old(self).strategy is Random ==> final(self).current_index == old(
                self,
            ).current_index,
    {
        if healthy.len() == 0 {
            return None;
        }
        match self.strategy {
            LoadBalancerStrategy::RoundRobin => self.round_robin_select(healthy),
            LoadBalancerStrategy::Random => {
                let entropy = crate::clock::entropy_nanos();
                self.random_select(healthy, entropy)
            },
            LoadBalancerStrategy::LeastConnections => self.least_connections_select(healthy),
            LoadBalancerStrategy::WeightedRoundRobin => self.weighted_round_robin_select(healthy),
        }
    }

    /// One round-robin step: return the entry at the counter modulo the list
    /// length, then advance the counter.
    pub fn round_robin_select(&mut self, backends: &Vec<String>) -> (r: Option<String>)
        ensures
            final(self).backends == old(self).backends,
            final(self).strategy == old(self).strategy,
            backends@.len() == 0 ==> r is None && *final(self) == *old(self),
            backends@.len() > 0 ==> r == Some(
                backends@[old(self).current_index as int % backends@.len() as int],
            ) && final(self).current_index == spec_next_counter(old(self).current_index),
    {
        if backends.len() == 0 {
            return None;
        }
        let index = (self.current_index % (backends.len() as u64)) as usize;
        if self.current_index == u64::MAX {
            self.current_index = 0;
        } else {
            self.current_index = self.current_index + 1;
        }
        Some(backends[index].clone())
    }

    /// Derives an index from the given coarse clock reading; adequate only
    /// for load spreading, not for security-sensitive selection.
    pub fn random_select(&self, backends: &Vec<String>, entropy: u64) -> (r: Option<String>)
        ensures
            backends@.len() == 0 ==> r is None,
            backends@.len() > 0 ==> r == Some(
                backends@[entropy as int % backends@.len() as int],
            ),
    {
        if backends.len() == 0 {
            return None;
        }
        let index = (entropy % (backends.len() as u64)) as usize;
        Some(backends[index].clone())
    }

    /// Documented fallback: no per-backend connection counts exist, so this
    /// degrades to round robin.
    pub fn least_connections_select(&mut self, backends: &Vec<String>) -> (r: Option<String>)
        ensures
            final(self).backends == old(self).backends,
            final(self).strategy == old(self).strategy,
            backends@.len() == 0 ==> r is None && *final(self) == *old(self),
            backends@.len() > 0 ==> r == Some(
                backends@[old(self).current_index as int % backends@.len() as int],
            ) && final(self).current_index == spec_next_counter(old(self).current_index),
    {
        self.round_robin_select(backends)
    }

    /// Documented fallback: no weight-aware structure exists, so this
    /// degrades to round robin.
    pub fn weighted_round_robin_select(&mut self, backends: &Vec<String>) -> (r: Option<String>)
        ensures
            final(self).backends == old(self).backends,
            final(self).strategy == old(self).strategy,
            backends@.len() == 0 ==> r is None && *final(self) == *old(self),
            backends@.len() > 0 ==> r == Some(
                backends@[old(self).current_index as int % backends@.len() as int],
            ) && final(self).current_index == spec_next_counter(old(self).current_index),
    {
        self.round_robin_select(backends)
    }

    /// The configured backend list.
    pub fn get_all_backends(&self) -> (r: &Vec<String>)
        ensures
            r == &self.backends,
    {
        &self.backends
    }

    /// Replaces the backend list and resets the shared counter.
    pub fn update_backends(&mut self, backends: Vec<String>)
        ensures
            final(self).backends == backends,
            final(self).current_index == 0,
            final(self).strategy == old(self).strategy,
    {
        self.backends = backends;
        self.current_index = 0;
    }
}

/// With `n` backends and no counter wrap, the round-robin indices taken by
/// two distinct selections within one full cycle of `n` consecutive requests
/// differ: each backend is visited exactly once before any repeat.
pub proof fn lemma_round_robin_cycle(c0: u64, n: int, i: int, j: int)
    requires
        0 < n,
        0 <= i < j < n,
        c0 + j <= u64::MAX,
    ensures
        (c0 + i) % n != (c0 + j) % n,
{
    let a = c0 + i;
    let d = j - i;
    vstd::arithmetic::div_mod::lemma_fundamental_div_mod(a, n);
    vstd::arithmetic::div_mod::lemma_fundamental_div_mod(a + d, n);
    vstd::arithmetic::div_mod::lemma_mod_bound(a, n);
    vstd::arithmetic::div_mod::lemma_mod_bound(a + d, n);
    if a % n == (a + d) % n {
        let qa = a / n;
        let qb = (a + d) / n;
        assert(d == n * (qb - qa)) by (nonlinear_arith)
            requires
                a == n * qa + a % n,
                a + d == n * qb + (a + d) % n,
                a % n == (a + d) % n,
        ;
        assert(qb - qa >= 1 ==> n * (qb - qa) >= n) by (nonlinear_arith)
            requires
                n > 0,
        ;
        assert(qb - qa <= 0 ==> n * (qb - qa) <= 0) by (nonlinear_arith)
            requires
                n > 0,
        ;
        assert(false);
    }
}

} // verus!
