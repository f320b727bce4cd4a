//! Request metrics: counters and response times, and the formatted summary
//! the stats endpoint reports.
//!
//! Times are carried as whole milliseconds; rates and averages are rendered
//! with two decimals from integer arithmetic.

use vstd::prelude::*;

use crate::http::spec_entry_lookup;
use crate::strutil::{spec_dec, str_eq, u64_to_dec};

verus! {

/// An integer clamped into the `u64` range.
pub open spec fn spec_sat_u64(x: int) -> u64 {
    if x > u64::MAX {
        u64::MAX
    } else if x < 0 {
        0
    } else {
        x as u64
    }
}

/// A counter bumped by one, saturating at the top of the range.
pub open spec fn spec_inc(c: u64) -> u64 {
    if c < u64::MAX {
        (c + 1) as u64
    } else {
        c
    }
}

/// The sum of a millisecond series.
pub open spec fn spec_time_sum(times: Seq<u64>) -> int
    decreases times.len(),
{
    if times.len() == 0 {
        0
    } else {
        spec_time_sum(times.drop_last()) + times.last()
    }
}

/// `value` rendered as `NN.NN` from hundredths: the integer part, a dot,
/// and a two-digit fraction.
pub open spec fn spec_hundredths_string(h: u64) -> Seq<char> {
    spec_dec(h as int / 100) + "."@ + spec_dec(h as int % 100 / 10) + spec_dec(h as int % 10)
}

/// Clamps a wide intermediate into the `u64` range.
fn sat_u64(x: u128) -> (r: u64)
    ensures
        r == spec_sat_u64(x as int),
{
    if x > u64::MAX as u128 {
        u64::MAX
    } else {
        x as u64
    }
}

/// Renders a hundredths count as `NN.NN`.
pub fn hundredths_string(h: u64) -> (r: String)
    ensures
        r@ == spec_hundredths_string(h),
{
    let whole = u64_to_dec(h / 100);
    let tenth = u64_to_dec(h % 100 / 10);
    let cent = u64_to_dec(h % 10);
    whole.concat(".").concat(tenth.as_str()).concat(cent.as_str())
}

/// The formatted statistics summary.  The timestamp of the original report
/// is supplied by the runtime when it serializes this.
pub struct MetricsSnapshot {
    pub total_requests: u64,
    pub total_errors: u64,
    /// `NN.NN%`: errors per hundred requests, in hundredths, rounded down.
    pub error_rate: String,
    /// `NN.NNms`: the mean of the recorded response times, in hundredths of
    /// a millisecond, rounded down.
    pub average_response_time: String,
    pub cache_hits: u64,
    pub cache_misses: u64,
    /// `NN.NN%`: hits per hundred cache probes, in hundredths, rounded down.
    pub cache_hit_rate: String,
}

/// Counters and response times for one running instance.
pub struct Metrics {
    pub total_requests: u64,
    /// Error counts keyed by error type, at most one entry per type.
    pub error_counts: Vec<(String, u64)>,
    pub total_errors: u64,
    /// The most recent response times, in milliseconds; at most 1000 kept.
    pub response_times: Vec<u64>,
    pub cache_hits: u64,
    pub cache_misses: u64,
}

impl Metrics {
    /// At most one error-count entry per type, and at most 1000 retained
    /// response times.
    pub open spec fn wf(&self) -> bool {
        &&& forall|i: int, j: int|
            0 <= i < j < self.error_counts@.len() ==> #[trigger] self.error_counts@[i].0@
                != #[trigger] self.error_counts@[j].0@
        &&& self.response_times@.len() <= 1000
    }

    /// Fresh metrics: everything zero.
    pub fn new() -> (r: Metrics)
        ensures
            r.wf(),
            r.total_requests == 0,
            r.total_errors == 0,
            r.error_counts@.len() == 0,
            r.response_times@.len() == 0,
            r.cache_hits == 0,
            r.cache_misses == 0,
    {
        Metrics {
            total_requests: 0,
            error_counts: Vec::new(),
            total_errors: 0,
            response_times: Vec::new(),
            cache_hits: 0,
            cache_misses: 0,
        }
    }

    /// Counts a request as started.  The identifier is fresh per request,
    /// so each call stands for one request.
    pub fn record_request_start(&mut self, request_id: &str)
        requires
            old(self).wf(),
        ensures
            final(self).wf(),
            *final(self) == (Metrics {
                total_requests: spec_inc(old(self).total_requests),
                ..*old(self)
            }),
    {
        let _ = request_id;
        if self.total_requests < u64::MAX {
            self.total_requests = self.total_requests + 1;
        }
    }

    /// Records the final status of a request; the counters do not change.
    pub fn record_request_complete(&mut self, request_id: &str, status_code: u16)
        ensures
            *final(self) == *old(self),
    {
        let _ = request_id;
        let _ = status_code;
    }

    /// Counts one error of the given type.
    pub fn record_error(&mut self, request_id: &str, error_type: &str)
        requires
            old(self).wf(),
        ensures
            final(self).wf(),
            final(self).total_errors == spec_inc(old(self).total_errors),
            spec_entry_lookup(final(self).error_counts@, error_type@) == Option::Some(
                match spec_entry_lookup(old(self).error_counts@, error_type@) {
                    Option::Some(c) => spec_inc(c),
                    Option::None => 1u64,
                },
            ),
            forall|t: Seq<char>|
                t != error_type@ ==> #[trigger] spec_entry_lookup(final(self).error_counts@, t)
                    == spec_entry_lookup(old(self).error_counts@, t),
            final(self).total_requests == old(self).total_requests,
            final(self).response_times == old(self).response_times,
            final(self).cache_hits == old(self).cache_hits,
            final(self).cache_misses == old(self).cache_misses,
    {
        let _ = request_id;
        if self.total_errors < u64::MAX {
            self.total_errors = self.total_errors + 1;
        }
        let len = self.error_counts.len();
        let mut i: usize = 0;
        while i < len
            invariant
                i <= len,
                len == self.error_counts@.len(),
                forall|k: int| 0 <= k < i ==> #[trigger] self.error_counts@[k].0@ != error_type@,
                old(self).wf(),
                self.error_counts == old(self).error_counts,
                self.total_errors == spec_inc(old(self).total_errors),
                self.total_requests == old(self).total_requests,
                self.response_times == old(self).response_times,
                self.cache_hits == old(self).cache_hits,
                self.cache_misses == old(self).cache_misses,
            decreases len - i,
        {
            if str_eq(self.error_counts[i].0.as_str(), error_type) {
                let name = self.error_counts[i].0.clone();
                let count = self.error_counts[i].1;
                let bumped: u64 = if count < u64::MAX {
                    count + 1
                } else {
                    count
                };
                proof {
                    crate::http::lemma_lookup_found(self.error_counts@, error_type@, i as int);
                    crate::http::lemma_lookup_update_all(
                        self.error_counts@,
                        i as int,
                        (self.error_counts@[i as int].0, bumped),
                    );
                }
                self.error_counts.set(i, (name, bumped));
                return ;
            }
            i += 1;
        }
        let ghost before = self.error_counts@;
        self.error_counts.push((String::from_str(error_type), 1u64));
        proof {
            let x = self.error_counts@.last();
            assert(self.error_counts@ =~= before.push(x));
            crate::http::lemma_lookup_absent_all(before, error_type@);
            crate::http::lemma_lookup_push_all(before, x);
        }
    }

    /// Records one response time, keeping only the most recent 1000.
    pub fn record_response_time(&mut self, request_id: &str, time_ms: u64)
        requires
            old(self).wf(),
        ensures
            final(self).wf(),
            old(self).response_times@.len() < 1000 ==> final(self).response_times@ == old(
                self,
            ).response_times@.push(time_ms),
            old(self).response_times@.len() >= 1000 ==> final(self).response_times@ == old(
                self,
            ).response_times@.push(time_ms).drop_first(),
            final(self).total_requests == old(self).total_requests,
            final(self).total_errors == old(self).total_errors,
            final(self).error_counts == old(self).error_counts,
            final(self).cache_hits == old(self).cache_hits,
            final(self).cache_misses == old(self).cache_misses,
    {
        let _ = request_id;
        self.response_times.push(time_ms);
        if self.response_times.len() > 1000 {
            self.response_times.remove(0);
            proof {
                assert(old(self).response_times@.push(time_ms).remove(0) =~= old(
                    self,
                ).response_times@.push(time_ms).drop_first());
            }
        }
    }

    /// Counts one cache hit.
    pub fn record_cache_hit(&mut self, request_id: &str)
        ensures
            *final(self) == (Metrics { cache_hits: spec_inc(old(self).cache_hits), ..*old(self) }),
    {
        let _ = request_id;
        if self.cache_hits < u64::MAX {
            self.cache_hits = self.cache_hits + 1;
        }
    }

    /// Counts one cache miss.
    pub fn record_cache_miss(&mut self, request_id: &str)
        ensures
            *final(self) == (Metrics {
                cache_misses: spec_inc(old(self).cache_misses),
                ..*old(self)
            }),
    {
        let _ = request_id;
        if self.cache_misses < u64::MAX {
            self.cache_misses = self.cache_misses + 1;
        }
    }

    /// The error rate in hundredths of a percentage point, rounded down;
    /// zero when no request was counted.
    pub open spec fn spec_error_rate_hundredths(&self) -> int {
        if self.total_requests > 0 {
            self.total_errors * 10000 / (self.total_requests as int)
        } else {
            0
        }
    }

    /// The cache hit rate in hundredths of a percentage point, rounded
    /// down; zero when no probe was counted.
    pub open spec fn spec_cache_hit_rate_hundredths(&self) -> int {
        if self.cache_hits + self.cache_misses > 0 {
            self.cache_hits * 10000 / (self.cache_hits + self.cache_misses)
        } else {
            0
        }
    }

    /// The mean response time in hundredths of a millisecond, rounded down;
    /// zero when no time was recorded.
    pub open spec fn spec_average_hundredths(&self) -> int {
        if self.response_times@.len() > 0 {
            spec_time_sum(self.response_times@) * 100 / (self.response_times@.len() as int)
        } else {
            0
        }
    }

    /// The formatted summary: totals, `NN.NN%` rates and the `NN.NNms`
    /// average response time.
    pub fn get_stats(&self) -> (r: MetricsSnapshot)
        requires
            self.wf(),
        ensures
            r.total_requests == self.total_requests,
            r.total_errors == self.total_errors,
            r.error_rate@ == spec_hundredths_string(spec_sat_u64(self.spec_error_rate_hundredths()))
                + "%"@,
            r.average_response_time@ == spec_hundredths_string(
                spec_sat_u64(self.spec_average_hundredths()),
            ) + "ms"@,
            r.cache_hits == self.cache_hits,
            r.cache_misses == self.cache_misses,
            r.cache_hit_rate@ == spec_hundredths_string(
                spec_sat_u64(self.spec_cache_hit_rate_hundredths()),
            ) + "%"@,
    {
        let error_hundredths: u64 = if self.total_requests > 0 {
            sat_u64(((self.total_errors as u128) * 10000) / (self.total_requests as u128))
        } else {
            0
        };
        let hit_hundredths: u64 = if self.cache_hits > 0 || self.cache_misses > 0 {
            sat_u64(
                ((self.cache_hits as u128) * 10000) / ((self.cache_hits as u128)
                    + (self.cache_misses as u128)),
            )
        } else {
            0
        };
        let mut sum: u128 = 0;
        let mut i: usize = 0;
        while i < self.response_times.len()
            invariant
                i <= self.response_times@.len(),
                self.response_times@.len() <= 1000,
                sum == spec_time_sum(self.response_times@.subrange(0, i as int)),
                sum <= i * (u64::MAX as int),
            decreases self.response_times@.len() - i,
        {
            proof {
                let prefix = self.response_times@.subrange(0, i + 1);
                assert(prefix.drop_last() =~= self.response_times@.subrange(0, i as int));
                assert(prefix.last() == self.response_times@[i as int]);
            }
            sum = sum + (self.response_times[i] as u128);
            i += 1;
        }
        proof {
            assert(self.response_times@.subrange(0, self.response_times@.len() as int)
                =~= self.response_times@);
        }
        let avg_hundredths: u64 = if self.response_times.len() > 0 {
            sat_u64((sum * 100) / (self.response_times.len() as u128))
        } else {
            0
        };
        MetricsSnapshot {
            total_requests: self.total_requests,
            total_errors: self.total_errors,
            error_rate: hundredths_string(error_hundredths).concat("%"),
            average_response_time: hundredths_string(avg_hundredths).concat("ms"),
            cache_hits: self.cache_hits,
            cache_misses: self.cache_misses,
            cache_hit_rate: hundredths_string(hit_hundredths).concat("%"),
        }
    }

    /// Clears every counter and the recorded times.
    pub fn reset(&mut self)
        ensures
            final(self).wf(),
            final(self).total_requests == 0,
            final(self).total_errors == 0,
            final(self).error_counts@.len() == 0,
            final(self).response_times@.len() == 0,
            final(self).cache_hits == 0,
            final(self).cache_misses == 0,
    {
        self.total_requests = 0;
        self.error_counts = Vec::new();
        self.total_errors = 0;
        self.response_times = Vec::new();
        self.cache_hits = 0;
        self.cache_misses = 0;
    }
}

} // verus!
