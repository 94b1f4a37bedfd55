//! Operational alerts, kept in a bounded queue of the most recent ones.
use vstd::prelude::*;
use std::collections::VecDeque;

verus! {

broadcast use vstd::std_specs::vecdeque::group_vec_dequeue_axioms;

/// An operational alert.
#[derive(Debug, Clone, PartialEq, Eq)]
pub enum Alert {
    DataApiDown,
    HeartbeatMissing { duration_secs: u64 },
    SlaBreach { p95_micros: u64, duration_secs: u64 },
    DailyLossLimitReached { loss_usd: i64 },
    LossLadderActivated { level: u32 },
    OrderAnomaly { order_id: u64, kind: &'static str },
    IbkrSubscriptionHigh { current: u32, limit: u32 },
    MtfRejectRateHigh { rate_pct: u32 },
}

/// What a bounded queue holds after `x` arrives: the oldest item goes once
/// the queue is at capacity.
pub open spec fn enqueued<T>(s: Seq<T>, capacity: nat, x: T) -> Seq<T> {
    if s.len() >= capacity && s.len() > 0 {
        s.drop_first().push(x)
    } else {
        s.push(x)
    }
}

/// The most recent alerts, up to a capacity.
pub struct AlertManager {
    pub alerts: VecDeque<Alert>,
    capacity: usize,
}

impl AlertManager {
    /// The alerts held, oldest first.
    pub closed spec fn queue(&self) -> Seq<Alert> {
        self.alerts@
    }

    pub closed spec fn cap(&self) -> nat {
        self.capacity as nat
    }

    /// The queue holds at most its capacity (one alert when the capacity is
    /// zero, since an arriving alert is always kept).
    pub closed spec fn wf(&self) -> bool {
        self.alerts@.len() <= if self.capacity == 0 { 1 } else { self.capacity as int }
    }

    pub fn new(capacity: usize) -> (m: Self)
        ensures
            m.wf(),
            m.queue() == Seq::<Alert>::empty(),
            m.cap() == capacity,
    {
        AlertManager { alerts: VecDeque::with_capacity(capacity), capacity }
    }

    /// Queues an alert, dropping the oldest at capacity.
    pub fn raise(&mut self, alert: Alert)
        ensures
            final(self).queue() == enqueued(old(self).queue(), old(self).cap(), alert),
            final(self).cap() == old(self).cap(),
            final(self).queue().last() == alert,
            old(self).wf() ==> final(self).wf(),
    {
        if self.alerts.len() >= self.capacity {
            self.alerts.pop_front();
        }
        self.alerts.push_back(alert);
        proof {
            let s = old(self).alerts@;
            if s.len() >= self.capacity && s.len() > 0 {
                assert(s.subrange(1, s.len() as int) =~= s.drop_first());
            }
        }
    }

    /// Up to `n` alerts, newest first.
    pub fn recent(&self, n: usize) -> (v: Vec<&Alert>)
        ensures
            v@.len() == if n < self.queue().len() { n as nat } else { self.queue().len() },
            forall|i: int| 0 <= i < v@.len() ==> *v@[i] == self.queue()[self.queue().len() - 1 - i],
    {
        let len = self.alerts.len();
        let mut out: Vec<&Alert> = Vec::new();
        let mut i: usize = 0;
        while i < n && i < len
            invariant
                len == self.alerts@.len(),
                i <= len,
                i <= n,
                out@.len() == i,
                forall|j: int| 0 <= j < i ==> *out@[j] == self.alerts@[len - 1 - j],
            decreases len - i,
        {
            out.push(&self.alerts[len - 1 - i]);
            i = i + 1;
        }
        out
    }
}

/// The queue never holds more alerts than its capacity, once that is positive.
pub proof fn law_queue_bounded<T>(s: Seq<T>, capacity: nat, x: T)
    requires
        capacity > 0,
        s.len() <= capacity,
    ensures
        enqueued(s, capacity, x).len() <= capacity,
        enqueued(s, capacity, x).last() == x,
{
}

/// Whatever alerts arrive, a manager made by `new` with a positive capacity
/// never holds more than that many, and always holds the newest last.
pub proof fn law_manager_bounded(m: AlertManager, x: Alert)
    requires
        m.wf(),
        m.cap() > 0,
    ensures
        m.queue().len() <= m.cap(),
        enqueued(m.queue(), m.cap(), x).len() <= m.cap(),
        enqueued(m.queue(), m.cap(), x).last() == x,
{
    law_queue_bounded(m.queue(), m.cap(), x);
}

} // verus!
