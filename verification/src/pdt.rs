//! Pattern-day-trader guard: counts completed day trades in the rolling
//! five-day window and refuses the trade that would exceed the allowance.
use vstd::prelude::*;
use std::collections::VecDeque;

verus! {

broadcast use vstd::std_specs::vecdeque::group_vec_dequeue_axioms;

/// Days of the rolling window.
pub const PDT_WINDOW_DAYS: u32 = 5;

/// Days from `d` to `today`, saturating at zero.
pub open spec fn days_since(today: u32, d: u32) -> int {
    if today >= d {
        today - d
    } else {
        0
    }
}

/// A trade on day `d` lies inside the window that ends on `today`.
pub open spec fn in_window(today: u32, d: u32) -> bool {
    days_since(today, d) < PDT_WINDOW_DAYS
}

/// Number of recorded `(day, symbol)` trades inside the window ending on `today`.
pub open spec fn window_count(s: Seq<(u32, u32)>, today: u32) -> nat
    decreases s.len(),
{
    if s.len() == 0 {
        0
    } else {
        window_count(s.drop_last(), today) + if in_window(today, s.last().0) {
            1nat
        } else {
            0nat
        }
    }
}

/// `after` is `before` without its leading trades that are out of the window
/// ending on `today`.
pub open spec fn stale_dropped(before: Seq<(u32, u32)>, today: u32, after: Seq<(u32, u32)>) -> bool {
    let k = before.len() - after.len();
    &&& 0 <= k <= before.len()
    &&& after == before.skip(k)
    &&& forall|i: int| 0 <= i < k ==> !in_window(today, (#[trigger] before[i]).0)
    &&& k < before.len() ==> in_window(today, before[k].0)
}

/// Dropping leading trades that are out of the window does not change the count.
proof fn lemma_count_skip_stale(s: Seq<(u32, u32)>, today: u32, k: int)
    requires
        0 <= k <= s.len(),
        forall|i: int| 0 <= i < k ==> !in_window(today, (#[trigger] s[i]).0),
    ensures
        window_count(s.skip(k), today) == window_count(s, today),
    decreases s.len(),
{
    if s.len() == 0 {
        assert(s.skip(k) =~= s);
    } else if k == s.len() {
        assert(s.skip(k) =~= Seq::<(u32, u32)>::empty());
        assert(window_count(Seq::<(u32, u32)>::empty(), today) == 0);
        lemma_count_skip_stale(s.drop_last(), today, k - 1);
        assert(s.drop_last().skip(k - 1) =~= Seq::<(u32, u32)>::empty());
    } else {
        lemma_count_skip_stale(s.drop_last(), today, k);
        assert(s.skip(k).drop_last() =~= s.drop_last().skip(k));
        assert(s.skip(k).last() == s.last());
    }
}

/// Records of completed day trades and the allowance in the window.
#[derive(Debug)]
pub struct PdtGuard {
    trades: VecDeque<(u32, u32)>,
    max_day_trades: usize,
}

impl View for PdtGuard {
    type V = Seq<(u32, u32)>;

    /// The recorded `(day, symbol)` trades, oldest first.
    closed spec fn view(&self) -> Seq<(u32, u32)> {
        self.trades@
    }
}

impl Default for PdtGuard {
    /// A guard with the strict allowance of three day trades.
    fn default() -> (g: Self)
        ensures
            g@ == Seq::<(u32, u32)>::empty(),
            g.max_trades() == 3,
    {
        PdtGuard { trades: VecDeque::new(), max_day_trades: 3 }
    }
}

impl PdtGuard {
    /// Day trades allowed in the window before a new entry is refused.
    pub closed spec fn max_trades(&self) -> usize {
        self.max_day_trades
    }

    /// A guard with no trade recorded.
    pub fn new(max_day_trades: usize) -> (g: Self)
        ensures
            g@ == Seq::<(u32, u32)>::empty(),
            g.max_trades() == max_day_trades,
    {
        PdtGuard { trades: VecDeque::new(), max_day_trades }
    }

    /// Number of recorded day trades in the five days ending on `today_ordinal`.
    pub fn day_trade_count_last_5_days(&self, today_ordinal: u32) -> (n: usize)
        ensures
            n == window_count(self@, today_ordinal),
    {
        let mut n: usize = 0;
        let mut i: usize = 0;
        while i < self.trades.len()
            invariant
                i <= self.trades@.len(),
                n <= i,
                n == window_count(self.trades@.take(i as int), today_ordinal),
            decreases self.trades@.len() - i,
        {
            let d = self.trades[i].0;
            proof {
                assert(self.trades@.take(i + 1).drop_last() =~= self.trades@.take(i as int));
            }
            if today_ordinal.saturating_sub(d) < PDT_WINDOW_DAYS {
                n = n + 1;
            }
            i = i + 1;
        }
        proof {
            assert(self.trades@.take(i as int) =~= self.trades@);
        }
        n
    }

    /// Records a completed day trade, then forgets the leading trades that are
    /// out of the window ending on `date_ordinal`.
    pub fn record_day_trade(&mut self, date_ordinal: u32, symbol_id: u32)
        ensures
            stale_dropped(old(self)@.push((date_ordinal, symbol_id)), date_ordinal, final(self)@),
            final(self).max_trades() == old(self).max_trades(),
    {
        self.trades.push_back((date_ordinal, symbol_id));
        let ghost s = self.trades@;
        let ghost mut k: int = 0;
        while self.trades.len() > 0
            invariant_except_break
                0 <= k <= s.len(),
                self.trades@ == s.skip(k),
                forall|i: int| 0 <= i < k ==> !in_window(date_ordinal, (#[trigger] s[i]).0),
                self.max_day_trades == old(self).max_day_trades,
            ensures
                stale_dropped(s, date_ordinal, self.trades@),
                self.max_day_trades == old(self).max_day_trades,
            decreases self.trades@.len(),
        {
            let d = self.trades[0].0;
            if date_ordinal.saturating_sub(d) >= PDT_WINDOW_DAYS {
                self.trades.pop_front();
                proof {
                    k = k + 1;
                    assert(self.trades@ =~= s.skip(k));
                }
            } else {
                break;
            }
        }
    }

    /// Whether one more day trade on `today_ordinal` would exceed the allowance.
    pub fn would_violate(&self, today_ordinal: u32) -> (b: bool)
        ensures
            b == (window_count(self@, today_ordinal) >= self.max_trades()),
    {
        self.day_trade_count_last_5_days(today_ordinal) >= self.max_day_trades
    }
}

/// Recording a day trade raises the count for that day by exactly one.
pub proof fn law_record_counts_once(before: Seq<(u32, u32)>, after: Seq<(u32, u32)>, day: u32, symbol: u32)
    requires
        stale_dropped(before.push((day, symbol)), day, after),
    ensures
        window_count(after, day) == window_count(before, day) + 1,
{
    let t = before.push((day, symbol));
    let k = t.len() - after.len();
    lemma_count_skip_stale(t, day, k);
    assert(t.drop_last() =~= before);
}

/// Recording a day trade on a day no earlier than any recorded one raises the
/// count of every later day by one while that day's window still holds the
/// trade, and leaves it unchanged after: pruning drops only trades that no
/// such day counts.
pub proof fn law_record_counts_in_window(
    before: Seq<(u32, u32)>,
    after: Seq<(u32, u32)>,
    day: u32,
    symbol: u32,
    t: u32,
)
    requires
        forall|i: int| 0 <= i < before.len() ==> (#[trigger] before[i]).0 <= day,
        stale_dropped(before.push((day, symbol)), day, after),
        t >= day,
    ensures
        window_count(after, t) == window_count(before, t) + if t - day < PDT_WINDOW_DAYS { 1int } else { 0int },
{
    let s = before.push((day, symbol));
    let k = s.len() - after.len();
    assert forall|i: int| 0 <= i < k implies !in_window(t, (#[trigger] s[i]).0) by {
        assert(!in_window(day, s[i].0));
        if i < before.len() {
            assert(s[i] == before[i]);
        }
    }
    lemma_count_skip_stale(s, t, k);
    assert(s.drop_last() =~= before);
}

} // verus!
