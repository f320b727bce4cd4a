//! Health tracking: a record of the last observed failure per backend, and
//! the derived healthy set.
//!
//! A backend is healthy iff health checking is disabled, or it has no failure
//! record, or the recovery window has elapsed since the recorded failure.
//! The tracker is stateless between reads: health is recomputed from the
//! record and the caller's clock reading on every query.  The active check
//! itself is a network call and happens outside the library; its outcome is
//! fed back in through `record_check_result`.

use vstd::prelude::*;

use crate::config::ProxyConfig;
use crate::strutil::str_eq;

verus! {

/// The failure time the record holds for `b`: the first matching entry.
pub open spec fn spec_failure_time(records: Seq<(String, u64)>, b: Seq<char>) -> Option<u64>
    decreases records.len(),
{
    if records.len() == 0 {
        Option::None
    } else if records[0].0@ == b {
        Option::Some(records[0].1)
    } else {
        spec_failure_time(records.drop_first(), b)
    }
}

/// Skipping entries whose name differs from `b` leaves the lookup unchanged.
proof fn lemma_failure_time_skip(records: Seq<(String, u64)>, b: Seq<char>, i: int)
    requires
        0 <= i <= records.len(),
        forall|k: int| 0 <= k < i ==> #[trigger] records[k].0@ != b,
    ensures
        spec_failure_time(records, b) == spec_failure_time(records.skip(i), b),
    decreases i,
{
    if i > 0 {
        lemma_failure_time_skip(records, b, i - 1);
        assert(records.skip(i - 1).drop_first() =~= records.skip(i));
        assert(records.skip(i - 1)[0] == records[i - 1]);
    } else {
        assert(records.skip(0) =~= records);
    }
}

/// Appending an entry resolves lookups that found nothing before.
proof fn lemma_failure_time_push(records: Seq<(String, u64)>, x: (String, u64), b: Seq<char>)
    ensures
        spec_failure_time(records.push(x), b) == match spec_failure_time(records, b) {
            Option::Some(t) => Option::Some(t),
            Option::None => if x.0@ == b {
                Option::Some(x.1)
            } else {
                Option::<u64>::None
            },
        },
    decreases records.len(),
{
    if records.len() == 0 {
        assert(records.push(x)[0] == x);
        assert(records.push(x).drop_first() =~= records);
    } else {
        lemma_failure_time_push(records.drop_first(), x, b);
        assert(records.push(x)[0] == records[0]);
        assert(records.push(x).drop_first() =~= records.drop_first().push(x));
    }
}

/// Overwriting the time of entry `i` (keeping its name) moves that name's
/// lookup to the new time, if no earlier entry shadows it, and leaves every
/// other name's lookup unchanged.
proof fn lemma_failure_time_update(
    records: Seq<(String, u64)>,
    i: int,
    x: (String, u64),
    b: Seq<char>,
)
    requires
        0 <= i < records.len(),
        records[i].0@ == x.0@,
        forall|k: int| 0 <= k < i ==> #[trigger] records[k].0@ != x.0@,
    ensures
        b == x.0@ ==> spec_failure_time(records.update(i, x), b) == Option::Some(x.1),
        b != x.0@ ==> spec_failure_time(records.update(i, x), b) == spec_failure_time(records, b),
    decreases i,
{
    if i == 0 {
        if b != x.0@ {
            assert(records.update(0, x).drop_first() =~= records.drop_first());
        }
    } else {
        lemma_failure_time_update(records.drop_first(), i - 1, x, b);
        assert(records.update(i, x).drop_first() =~= records.drop_first().update(i - 1, x));
        assert(records.update(i, x)[0] == records[0]);
    }
}

/// Removing entry `i` erases its name's lookup when no other entry carries
/// that name, and leaves every other name's lookup unchanged.
proof fn lemma_failure_time_remove(records: Seq<(String, u64)>, i: int, b: Seq<char>)
    requires
        0 <= i < records.len(),
        forall|k: int|
            0 <= k < records.len() && k != i ==> #[trigger] records[k].0@ != records[i].0@,
    ensures
        b == records[i].0@ ==> spec_failure_time(records.remove(i), b) == Option::<u64>::None,
        b != records[i].0@ ==> spec_failure_time(records.remove(i), b) == spec_failure_time(
            records,
            b,
        ),
    decreases i,
{
    if i == 0 {
        assert(records.remove(0) =~= records.drop_first());
        if b == records[0].0@ {
            lemma_no_record_no_time(records.drop_first(), b);
        }
    } else {
        lemma_failure_time_remove(records.drop_first(), i - 1, b);
        assert(records.remove(i).drop_first() =~= records.drop_first().remove(i - 1));
        assert(records.remove(i)[0] == records[0]);
    }
}

/// A name no entry carries has no failure time.
proof fn lemma_no_record_no_time(records: Seq<(String, u64)>, b: Seq<char>)
    requires
        forall|k: int| 0 <= k < records.len() ==> #[trigger] records[k].0@ != b,
    ensures
        spec_failure_time(records, b) == Option::<u64>::None,
    decreases records.len(),
{
    if records.len() > 0 {
        lemma_no_record_no_time(records.drop_first(), b);
    }
}

/// Tracks which backends are currently considered unhealthy and when each
/// becomes eligible again.
pub struct HealthChecker {
    /// Backend base URL, and the epoch second of its last observed failure.
    /// Absence of an entry means "healthy"; entries are removed on success.
    pub unhealthy_backends: Vec<(String, u64)>,
    /// The configured backend list, in configured order.
    pub backends: Vec<String>,
    /// Whether health checking is enabled at all.
    pub health_check_enabled: bool,
    /// The recovery window, in seconds.
    pub health_check_interval: u64,
}

impl HealthChecker {
    /// At most one failure record per backend name.
    pub open spec fn wf(&self) -> bool {
        forall|i: int, j: int|
            0 <= i < j < self.unhealthy_backends@.len() ==> #[trigger] self.unhealthy_backends@[i].0@
                != #[trigger] self.unhealthy_backends@[j].0@
    }

    /// The failure time recorded for `b`, if any.
    pub open spec fn spec_failure(&self, b: Seq<char>) -> Option<u64> {
        spec_failure_time(self.unhealthy_backends@, b)
    }

    /// A backend is healthy iff health checking is disabled, or it has no
    /// failure record, or the recovery window has elapsed.
    pub open spec fn spec_is_healthy(&self, b: Seq<char>, now: u64) -> bool {
        ||| !self.health_check_enabled
        ||| match self.spec_failure(b) {
            Option::None => true,
            Option::Some(t) => now >= t + self.health_check_interval,
        }
    }

    /// A fresh tracker over the configured backends, with every backend
    /// healthy.
    pub fn new(config: &ProxyConfig) -> (r: HealthChecker)
        ensures
            r.unhealthy_backends@.len() == 0,
            r.backends@ == config.backends@,
            r.health_check_enabled == config.health_check_enabled,
            r.health_check_interval == config.health_check_interval,
            r.wf(),
    {
        let mut copied: Vec<String> = Vec::new();
        let mut i: usize = 0;
        while i < config.backends.len()
            invariant
                i <= config.backends@.len(),
                copied@ == config.backends@.subrange(0, i as int),
            decreases config.backends@.len() - i,
        {
            copied.push(config.backends[i].clone());
            proof {
                assert(copied@ =~= config.backends@.subrange(0, i + 1));
            }
            i += 1;
        }
        proof {
            assert(config.backends@.subrange(0, config.backends@.len() as int)
                =~= config.backends@);
        }
        HealthChecker {
            unhealthy_backends: Vec::new(),
            backends: copied,
            health_check_enabled: config.health_check_enabled,
            health_check_interval: config.health_check_interval,
        }
    }

    /// The index of the failure record for `backend`, if one exists.
    fn find_record(&self, backend: &str) -> (r: Option<usize>)
        ensures
            match r {
                Option::Some(i) => i < self.unhealthy_backends@.len()
                    && self.unhealthy_backends@[i as int].0@ == backend@ && self.spec_failure(
                    backend@,
                ) == Option::Some(self.unhealthy_backends@[i as int].1) && forall|k: int|
                    0 <= k < i ==> #[trigger] self.unhealthy_backends@[k].0@ != backend@,
                Option::None => self.spec_failure(backend@) is None && forall|k: int|
                    0 <= k < self.unhealthy_backends@.len()
                        ==> #[trigger] self.unhealthy_backends@[k].0@ != backend@,
            },
    {
        let len = self.unhealthy_backends.len();
        let mut i: usize = 0;
        while i < len
            invariant
                i <= len,
                len == self.unhealthy_backends@.len(),
                forall|k: int| 0 <= k < i ==> #[trigger] self.unhealthy_backends@[k].0@ != backend@,
            decreases len - i,
        {
            if str_eq(self.unhealthy_backends[i].0.as_str(), backend) {
                proof {
                    lemma_failure_time_skip(self.unhealthy_backends@, backend@, i as int);
                    assert(self.unhealthy_backends@.skip(i as int)[0]
                        == self.unhealthy_backends@[i as int]);
                }
                return Option::Some(i);
            }
            i += 1;
        }
        proof {
            lemma_no_record_no_time(self.unhealthy_backends@, backend@);
        }
        Option::None
    }

    /// Whether `backend` counts as healthy at time `now`.
    pub fn is_healthy(&self, backend: &str, now: u64) -> (r: bool)
        ensures
            r == self.spec_is_healthy(backend@, now),
    {
        if !self.health_check_enabled {
            return true;
        }
        match self.find_record(backend) {
            Option::None => true,
            Option::Some(i) => {
                let t = self.unhealthy_backends[i].1;
                (now as u128) >= (t as u128) + (self.health_check_interval as u128)
            },
        }
    }

    /// Records a failure for `backend` observed at time `now`, inserting or
    /// overwriting its record.
    pub fn mark_unhealthy(&mut self, backend: &str, now: u64)
        requires
            old(self).wf(),
        ensures
            final(self).wf(),
            final(self).spec_failure(backend@) == Option::Some(now),
            forall|b2: Seq<char>|
                b2 != backend@ ==> #[trigger] final(self).spec_failure(b2) == old(
                    self,
                ).spec_failure(b2),
            final(self).backends == old(self).backends,
            final(self).health_check_enabled == old(self).health_check_enabled,
            final(self).health_check_interval == old(self).health_check_interval,
    {
        match self.find_record(backend) {
            Option::Some(i) => {
                let name = self.unhealthy_backends[i].0.clone();
                proof {
                    lemma_failure_time_update(
                        self.unhealthy_backends@,
                        i as int,
                        (self.unhealthy_backends@[i as int].0, now),
                        backend@,
                    );
                    assert forall|b2: Seq<char>| b2 != backend@ implies spec_failure_time(
                        self.unhealthy_backends@.update(
                            i as int,
                            (self.unhealthy_backends@[i as int].0, now),
                        ),
                        b2,
                    ) == spec_failure_time(self.unhealthy_backends@, b2) by {
                        lemma_failure_time_update(
                            self.unhealthy_backends@,
                            i as int,
                            (self.unhealthy_backends@[i as int].0, now),
                            b2,
                        );
                    }
                }
                self.unhealthy_backends.set(i, (name, now));
            },
            Option::None => {
                let ghost before = self.unhealthy_backends@;
                self.unhealthy_backends.push((String::from_str(backend), now));
                proof {
                    let x = self.unhealthy_backends@.last();
                    assert(self.unhealthy_backends@ =~= before.push(x));
                    lemma_failure_time_push(before, x, backend@);
                    assert forall|b2: Seq<char>| b2 != backend@ implies spec_failure_time(
                        before.push(x),
                        b2,
                    ) == spec_failure_time(before, b2) by {
                        lemma_failure_time_push(before, x, b2);
                        if spec_failure_time(before, b2) is None {
                            lemma_no_record_no_time_converse(before, b2);
                        }
                    }
                }
            },
        }
    }

    /// Removes the failure record for `backend`, if present.
    pub fn mark_healthy(&mut self, backend: &str)
        requires
            old(self).wf(),
        ensures
            final(self).wf(),
            final(self).spec_failure(backend@) is None,
            forall|b2: Seq<char>|
                b2 != backend@ ==> #[trigger] final(self).spec_failure(b2) == old(
                    self,
                ).spec_failure(b2),
            final(self).backends == old(self).backends,
            final(self).health_check_enabled == old(self).health_check_enabled,
            final(self).health_check_interval == old(self).health_check_interval,
    {
        match self.find_record(backend) {
            Option::Some(i) => {
                proof {
                    assert forall|b2: Seq<char>| true implies #[trigger] spec_failure_time(
                        self.unhealthy_backends@.remove(i as int),
                        b2,
                    ) == if b2 == backend@ {
                        Option::<u64>::None
                    } else {
                        spec_failure_time(self.unhealthy_backends@, b2)
                    } by {
                        lemma_failure_time_remove(self.unhealthy_backends@, i as int, b2);
                    }
                }
                self.unhealthy_backends.remove(i);
            },
            Option::None => {},
        }
    }

    /// Whether an active check should probe the backend at all: with health
    /// checking disabled, no probe is issued, no record is touched, and the
    /// backend counts as healthy outright.
    pub fn should_probe(&self) -> (r: bool)
        ensures
            r == self.health_check_enabled,
    {
        self.health_check_enabled
    }

    /// Applies the outcome of one active health check observed at `now`:
    /// a status in [200, 300) is a success and clears the failure record;
    /// any other status — and any transport failure, passed as `None` — marks
    /// the backend unhealthy.  Returns whether the check succeeded.
    pub fn record_check_result(&mut self, backend: &str, status: Option<u16>, now: u64) -> (r:
        bool)
        requires
            old(self).wf(),
        ensures
            final(self).wf(),
            r == (status is Some && 200 <= status->0 < 300),
            r ==> final(self).spec_failure(backend@) is None,
            !r ==> final(self).spec_failure(backend@) == Option::Some(now),
            forall|b2: Seq<char>|
                b2 != backend@ ==> #[trigger] final(self).spec_failure(b2) == old(
                    self,
                ).spec_failure(b2),
            final(self).backends == old(self).backends,
            final(self).health_check_enabled == old(self).health_check_enabled,
            final(self).health_check_interval == old(self).health_check_interval,
    {
        match status {
            Option::Some(code) => {
                if 200 <= code && code < 300 {
                    self.mark_healthy(backend);
                    true
                } else {
                    self.mark_unhealthy(backend, now);
                    false
                }
            },
            Option::None => {
                self.mark_unhealthy(backend, now);
                false
            },
        }
    }

    /// The URL an active check probes: the backend base plus the fixed
    /// `/health` path.  (A per-backend configured health-check path is
    /// accepted in configuration but not consulted here.)
    pub fn health_check_url(backend: &str) -> (r: String)
        ensures
            r@ == backend@ + "/health"@,
    {
        String::from_str(backend).concat("/health")
    }

    /// The configured backends that are healthy at `now`, in configured
    /// order.
    pub fn get_healthy_backends(&self, now: u64) -> (r: Vec<String>)
        ensures
            r@ == self.backends@.filter(|b: String| self.spec_is_healthy(b@, now)),
    {
        let ghost pred = |b: String| self.spec_is_healthy(b@, now);
        let mut healthy: Vec<String> = Vec::new();
        proof {
            reveal(Seq::filter);
            assert(self.backends@.subrange(0, 0).filter(pred) =~= Seq::<String>::empty());
        }
        let mut i: usize = 0;
        while i < self.backends.len()
            invariant
                i <= self.backends@.len(),
                healthy@ == self.backends@.subrange(0, i as int).filter(pred),
                pred == (|b: String| self.spec_is_healthy(b@, now)),
            decreases self.backends@.len() - i,
        {
            proof {
                reveal(Seq::filter);
                let prefix = self.backends@.subrange(0, i + 1);
                assert(prefix.drop_last() =~= self.backends@.subrange(0, i as int));
                assert(prefix.last() == self.backends@[i as int]);
                if pred(prefix.last()) {
                    assert(prefix.filter(pred) =~= prefix.drop_last().filter(pred).push(
                        prefix.last(),
                    ));
                } else {
                    assert(prefix.filter(pred) =~= prefix.drop_last().filter(pred));
                }
            }
            if self.is_healthy(self.backends[i].as_str(), now) {
                healthy.push(self.backends[i].clone());
            }
            i += 1;
        }
        proof {
            assert(self.backends@.subrange(0, self.backends@.len() as int) =~= self.backends@);
        }
        healthy
    }

    /// The health of every configured backend at `now`, in configured order.
    pub fn get_backend_status(&self, now: u64) -> (r: Vec<(String, bool)>)
        ensures
            r@.len() == self.backends@.len(),
            forall|i: int|
                #![trigger r@[i]]
                0 <= i < r@.len() ==> r@[i].0 == self.backends@[i] && r@[i].1
                    == self.spec_is_healthy(self.backends@[i]@, now),
    {
        let mut status: Vec<(String, bool)> = Vec::new();
        let mut i: usize = 0;
        while i < self.backends.len()
            invariant
                i <= self.backends@.len(),
                status@.len() == i,
                forall|k: int|
                    #![trigger status@[k]]
                    0 <= k < i ==> status@[k].0 == self.backends@[k] && status@[k].1
                        == self.spec_is_healthy(self.backends@[k]@, now),
            decreases self.backends@.len() - i,
        {
            let healthy = self.is_healthy(self.backends[i].as_str(), now);
            status.push((self.backends[i].clone(), healthy));
            i += 1;
        }
        status
    }
}

/// A name that no entry carries looks up to nothing; conversely, if a lookup
/// finds nothing, no entry carries the name.
proof fn lemma_no_record_no_time_converse(records: Seq<(String, u64)>, b: Seq<char>)
    requires
        spec_failure_time(records, b) is None,
    ensures
        forall|k: int| 0 <= k < records.len() ==> #[trigger] records[k].0@ != b,
    decreases records.len(),
{
    if records.len() > 0 {
        lemma_no_record_no_time_converse(records.drop_first(), b);
        assert forall|k: int| 0 <= k < records.len() implies #[trigger] records[k].0@ != b by {
            if k > 0 {
                assert(records.drop_first()[k - 1] == records[k]);
            }
        }
    }
}

/// Immediately after a failure of backend `b` is recorded at time `t`, the
/// backend is unhealthy, and it counts as healthy again exactly once the
/// recovery window has elapsed: at any `now` with `now >= t + interval`, and
/// at no earlier time.
pub proof fn lemma_unhealthy_until_recovery(after: HealthChecker, b: Seq<char>, t: u64)
    requires
        after.health_check_enabled,
        after.health_check_interval > 0,
        after.spec_failure(b) == Option::Some(t),
    ensures
        !after.spec_is_healthy(b, t),
        forall|now: u64|
            #[trigger] after.spec_is_healthy(b, now) <==> now >= t + after.health_check_interval,
{
}

} // verus!
