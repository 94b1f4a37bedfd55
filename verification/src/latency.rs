//! Decision-path latency: a window of recent measurements, its 95th
//! percentile (recomputed every hundred queries) and the hard-fail rule of
//! the latency SLA (P95 above 25 ms for five seconds on end).
use vstd::prelude::*;
use vstd::relations::{sorted_by, total_ordering};
use std::collections::VecDeque;

verus! {

broadcast use {vstd::std_specs::vecdeque::group_vec_dequeue_axioms, vstd::seq_lib::group_to_multiset_ensures};

/// P95 above which the SLA is breached, in microseconds.
pub const SLA_HARD_FAIL_MICROS: u64 = 25_000;
/// How long a breach must last before the hard fail, in microseconds.
pub const SLA_HARD_FAIL_DURATION_MICROS: u64 = 5_000_000;
/// Queries between two recomputations of the P95.
pub const P95_REFRESH_CALLS: u64 = 100;

/// Ascending order on latencies.
pub open spec fn ascending() -> spec_fn(u64, u64) -> bool {
    |x: u64, y: u64| x <= y
}

/// Index of the 95th percentile in a sorted window of `n` values:
/// `floor(n * 0.95)`, at most `n - 1`.
pub open spec fn p95_index(n: nat) -> int {
    let i = (n * 95 / 100) as int;
    if i < n - 1 {
        i
    } else {
        n - 1
    }
}

/// The 95th percentile of a non-empty window.
pub open spec fn p95_of(s: Seq<u64>) -> u64 {
    s.sort_by(ascending())[p95_index(s.len())]
}

/// What `record` leaves: the oldest value goes once the window is at
/// capacity, and the new value is appended.
pub open spec fn recorded(s: Seq<u64>, capacity: nat, x: u64) -> Seq<u64> {
    if s.len() >= capacity && s.len() > 0 {
        s.drop_first().push(x)
    } else {
        s.push(x)
    }
}

proof fn lemma_ascending_total()
    ensures
        total_ordering(ascending()),
{
}

/// Latency window and SLA state.
pub struct LatencyTracker {
    window: VecDeque<u64>,
    capacity: usize,
    sorted_cache: Vec<u64>,
    p95_cache: u64,
    calls_since_last_p95: u64,
    /// When the current P95 breach began, if one is under way.
    pub consecutive_breach_start: Option<u64>,
    /// Set once the SLA hard fail fired; stays set for the session.
    pub hard_fail_triggered: bool,
}

impl LatencyTracker {
    /// The recent measurements, oldest first.
    pub closed spec fn window(&self) -> Seq<u64> {
        self.window@
    }

    pub closed spec fn cap(&self) -> nat {
        self.capacity as nat
    }

    /// The P95 last computed.
    pub closed spec fn cached(&self) -> u64 {
        self.p95_cache
    }

    /// Queries since the last recomputation.
    pub closed spec fn calls(&self) -> u64 {
        self.calls_since_last_p95
    }

    pub closed spec fn wf(&self) -> bool {
        self.calls_since_last_p95 <= P95_REFRESH_CALLS
    }

    /// When the current breach began, if one is under way.
    pub closed spec fn breach_start(&self) -> Option<u64> {
        self.consecutive_breach_start
    }

    /// Whether the hard fail fired.
    pub closed spec fn hard_failed(&self) -> bool {
        self.hard_fail_triggered
    }

    /// A tracker keeping `capacity` measurements; the first query computes.
    pub fn new(capacity: usize) -> (t: Self)
        ensures
            t.wf(),
            t.window() == Seq::<u64>::empty(),
            t.cap() == capacity,
            t.cached() == 0,
            t.calls() == P95_REFRESH_CALLS,
            t.breach_start() is None,
            !t.hard_failed(),
    {
        LatencyTracker {
            window: VecDeque::with_capacity(capacity),
            capacity,
            sorted_cache: Vec::with_capacity(capacity),
            p95_cache: 0,
            calls_since_last_p95: P95_REFRESH_CALLS,
            consecutive_breach_start: None,
            hard_fail_triggered: false,
        }
    }

    /// Adds a measurement, dropping the oldest at capacity.
    pub fn record(&mut self, latency_us: u64)
        requires
            old(self).wf(),
        ensures
            final(self).wf(),
            final(self).window() == recorded(old(self).window(), old(self).cap(), latency_us),
            final(self).cap() == old(self).cap(),
            final(self).cached() == old(self).cached(),
            final(self).calls() == old(self).calls(),
            final(self).breach_start() == old(self).breach_start(),
            final(self).hard_failed() == old(self).hard_failed(),
    {
        if self.window.len() >= self.capacity {
            self.window.pop_front();
        }
        self.window.push_back(latency_us);
        proof {
            let s = old(self).window@;
            if s.len() >= self.capacity && s.len() > 0 {
                assert(s.subrange(1, s.len() as int) =~= s.drop_first());
            }
        }
    }

    /// Copies the window into the cache in ascending order.
    fn refresh_sorted(&mut self)
        ensures
            final(self).sorted_cache@ == old(self).window@.sort_by(ascending()),
            final(self).window == old(self).window,
            final(self).capacity == old(self).capacity,
            final(self).p95_cache == old(self).p95_cache,
            final(self).calls_since_last_p95 == old(self).calls_since_last_p95,
            final(self).breach_start() == old(self).breach_start(),
            final(self).hard_failed() == old(self).hard_failed(),
    {
        let ghost w = self.window@;
        self.sorted_cache.clear();
        let n = self.window.len();
        let mut i: usize = 0;
        while i < n
            invariant
                n == w.len(),
                i <= n,
                w == self.window@,
                self.window == old(self).window,
                self.capacity == old(self).capacity,
                self.p95_cache == old(self).p95_cache,
                self.calls_since_last_p95 == old(self).calls_since_last_p95,
                self.consecutive_breach_start == old(self).breach_start(),
                self.hard_fail_triggered == old(self).hard_failed(),
                sorted_by(self.sorted_cache@, ascending()),
                self.sorted_cache@.to_multiset() == w.take(i as int).to_multiset(),
                self.sorted_cache@.len() == i,
            decreases n - i,
        {
            let x = self.window[i];
            let m = self.sorted_cache.len();
            let mut p: usize = 0;
            while p < m && self.sorted_cache[p] <= x
                invariant
                    m == self.sorted_cache@.len(),
                    p <= m,
                    forall|q: int| 0 <= q < p ==> self.sorted_cache@[q] <= x,
                decreases m - p,
            {
                p = p + 1;
            }
            let ghost before = self.sorted_cache@;
            self.sorted_cache.insert(p, x);
            proof {
                assert forall|q: int| p <= q < m implies x < before[q] by {
                    assert(ascending()(before[p as int], before[q]));
                }
                assert forall|a: int, b: int| 0 <= a < b < self.sorted_cache@.len() implies #[trigger] ascending()(
                    self.sorted_cache@[a],
                    self.sorted_cache@[b],
                ) by {
                    if b < p {
                        assert(ascending()(before[a], before[b]));
                    } else if a > p {
                        assert(ascending()(before[a - 1], before[b - 1]));
                    } else if a < p && b > p {
                        assert(before[a] <= x);
                    }
                }
                assert(w.take(i + 1) =~= w.take(i as int).push(x));
            }
            i = i + 1;
        }
        proof {
            assert(w.take(n as int) =~= w);
            lemma_ascending_total();
            w.lemma_sort_by_ensures(ascending());
            vstd::seq_lib::lemma_sorted_unique(self.sorted_cache@, w.sort_by(ascending()), ascending());
        }
    }

    /// The 95th percentile of the window, recomputed on every hundredth
    /// query and the cached value in between; 0 for an empty window (the
    /// cache then keeps its value).
    pub fn p95(&mut self) -> (r: u64)
        requires
            old(self).wf(),
        ensures
            final(self).wf(),
            final(self).window() == old(self).window(),
            final(self).cap() == old(self).cap(),
            final(self).breach_start() == old(self).breach_start(),
            final(self).hard_failed() == old(self).hard_failed(),
            old(self).calls() + 1 < P95_REFRESH_CALLS ==> {
                &&& r == old(self).cached()
                &&& final(self).cached() == old(self).cached()
                &&& final(self).calls() == old(self).calls() + 1
            },
            old(self).calls() + 1 >= P95_REFRESH_CALLS ==> {
                &&& final(self).calls() == 0
                &&& old(self).window().len() == 0 ==> r == 0 && final(self).cached() == old(self).cached()
                &&& old(self).window().len() > 0 ==> r == p95_of(old(self).window()) && final(self).cached() == r
            },
    {
        self.calls_since_last_p95 = self.calls_since_last_p95 + 1;
        if self.calls_since_last_p95 < P95_REFRESH_CALLS {
            return self.p95_cache;
        }
        self.calls_since_last_p95 = 0;
        if self.window.len() == 0 {
            return 0;
        }
        self.refresh_sorted();
        let n = self.sorted_cache.len();
        proof {
            w_len_lemma(self.window@);
            assert((n as int) * 95 / 100 <= n as int) by (nonlinear_arith)
                requires
                    n >= 1,
            ;
        }
        let scaled: u128 = (n as u128) * 95 / 100;
        let idx0 = scaled as usize;
        let idx = if idx0 < n - 1 {
            idx0
        } else {
            n - 1
        };
        self.p95_cache = self.sorted_cache[idx];
        self.p95_cache
    }

    /// Whether the SLA hard fail holds at `now_micros`: the P95 stayed above
    /// 25 ms for more than five seconds. A P95 back under the limit resets the
    /// breach timer but not a hard fail that already fired.
    pub fn check_sla_hard_fail(&mut self, now_micros: u64) -> (r: bool)
        requires
            old(self).wf(),
        ensures
            final(self).wf(),
            final(self).window() == old(self).window(),
            final(self).cap() == old(self).cap(),
            old(self).hard_failed() ==> r && final(self).hard_failed(),
            r == final(self).hard_failed(),
            final(self).calls() == (if old(self).calls() + 1 < P95_REFRESH_CALLS {
                old(self).calls() + 1
            } else {
                0
            }),
            final(self).cached() == (if old(self).calls() + 1 < P95_REFRESH_CALLS || old(self).window().len()
                == 0 {
                old(self).cached()
            } else {
                p95_of(old(self).window())
            }),
            ({
                let p = if old(self).calls() + 1 < P95_REFRESH_CALLS {
                    old(self).cached()
                } else if old(self).window().len() == 0 {
                    0
                } else {
                    p95_of(old(self).window())
                };
                if p > SLA_HARD_FAIL_MICROS {
                    match old(self).breach_start() {
                        None => {
                            &&& final(self).breach_start() == Some(now_micros)
                            &&& r == old(self).hard_failed()
                            &&& final(self).hard_failed() == old(self).hard_failed()
                        },
                        Some(start) => {
                            &&& final(self).breach_start() == Some(start)
                            &&& if now_micros >= start && now_micros - start > SLA_HARD_FAIL_DURATION_MICROS {
                                r && final(self).hard_failed()
                            } else {
                                r == old(self).hard_failed()
                                    && final(self).hard_failed() == old(self).hard_failed()
                            }
                        },
                    }
                } else {
                    &&& final(self).breach_start() is None
                    &&& r == old(self).hard_failed()
                    &&& final(self).hard_failed() == old(self).hard_failed()
                }
            }),
    {
        let p95 = self.p95();
        if p95 > SLA_HARD_FAIL_MICROS {
            match self.consecutive_breach_start {
                None => {
                    self.consecutive_breach_start = Some(now_micros);
                },
                Some(start) => {
                    if now_micros.saturating_sub(start) > SLA_HARD_FAIL_DURATION_MICROS {
                        if !self.hard_fail_triggered {
                            self.hard_fail_triggered = true;
                        }
                        return true;
                    }
                },
            }
        } else {
            self.consecutive_breach_start = None;
        }
        self.hard_fail_triggered
    }
}

proof fn w_len_lemma(s: Seq<u64>)
    ensures
        s.sort_by(ascending()).len() == s.len(),
{
    lemma_ascending_total();
    s.lemma_sort_by_ensures(ascending());
    vstd::seq_lib::to_multiset_len(s);
    vstd::seq_lib::to_multiset_len(s.sort_by(ascending()));
}

/// The 95th percentile of a window is one of its measurements, and every
/// measurement ranked at or below its rank in ascending order is no larger.
pub proof fn law_p95_in_window(s: Seq<u64>)
    requires
        s.len() > 0,
    ensures
        s.contains(p95_of(s)),
        s.sort_by(ascending())[p95_index(s.len())] == p95_of(s),
        forall|i: int| 0 <= i <= p95_index(s.len()) ==> s.sort_by(ascending())[i] <= p95_of(s),
{
    lemma_ascending_total();
    s.lemma_sort_by_ensures(ascending());
    w_len_lemma(s);
    let t = s.sort_by(ascending());
    let i = p95_index(s.len());
    assert(0 <= i < t.len()) by (nonlinear_arith)
        requires
            i == p95_index(s.len()),
            t.len() == s.len(),
            s.len() > 0,
    {
    }
    assert(t.to_multiset().count(t[i]) > 0);
    assert(s.to_multiset().count(t[i]) > 0);
    assert forall|j: int| 0 <= j <= i implies t[j] <= p95_of(s) by {
        if j < i {
            assert(ascending()(t[j], t[i]));
        }
    }
}

} // verus!
