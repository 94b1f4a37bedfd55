//! Fixed-capacity ring buffer of timestamped items with time-window pruning.
//!
//! The buffer keeps at most `max_elements` items. Pushing into a full buffer
//! evicts the oldest item; `prune_expired` drops the leading items that fell
//! out of the time window.
use vstd::prelude::*;
use vstd::std_specs::cmp::PartialOrdIs;
use vstd::std_specs::cmp::PartialOrdSpec;

verus! {

/// Ring of `capacity` slots, one of which always stays free so that a full
/// ring and an empty ring can be told apart.
#[derive(Debug, Clone)]
pub struct TimeRingBuffer<T> {
    buffer: Vec<Option<(u64, T)>>,
    head: usize,
    tail: usize,
    capacity: usize,
    window_micros: u64,
}

/// Physical slot of the `i`-th live element, counted from `start`, in a ring
/// of `cap` slots (for `0 <= i < cap`).
pub open spec fn ring_slot(start: int, i: int, cap: int) -> int {
    if start + i < cap {
        start + i
    } else {
        start + i - cap
    }
}

/// Number of live slots from `start` (inclusive) to `end` (exclusive).
pub open spec fn ring_count(start: int, end: int, cap: int) -> int {
    if end >= start {
        end - start
    } else {
        cap + end - start
    }
}

/// The live slots of a ring from `start` to `end` all hold an item.
pub open spec fn ring_filled<T>(buf: Seq<Option<(u64, T)>>, start: int, end: int) -> bool {
    forall|i: int|
        0 <= i < ring_count(start, end, buf.len() as int) ==> (#[trigger] buf[ring_slot(
            start,
            i,
            buf.len() as int,
        )]) is Some
}

/// The items of a ring from `start` to `end`, oldest first.
pub open spec fn ring_items<T>(buf: Seq<Option<(u64, T)>>, start: int, end: int) -> Seq<(u64, T)> {
    Seq::new(
        ring_count(start, end, buf.len() as int) as nat,
        |i: int| buf[ring_slot(start, i, buf.len() as int)]->Some_0,
    )
}

/// What `push` leaves: the item is appended and, past the capacity, the
/// oldest item is dropped.
pub open spec fn pushed<T>(s: Seq<(u64, T)>, max_len: nat, entry: (u64, T)) -> Seq<(u64, T)> {
    let t = s.push(entry);
    if t.len() > max_len {
        t.drop_first()
    } else {
        t
    }
}

/// `after` is `before` without its leading items stamped before `cutoff`.
pub open spec fn pruned<T>(before: Seq<(u64, T)>, cutoff: u64, after: Seq<(u64, T)>) -> bool {
    let k = before.len() - after.len();
    &&& 0 <= k <= before.len()
    &&& after == before.skip(k)
    &&& forall|i: int| 0 <= i < k ==> (#[trigger] before[i]).0 < cutoff
    &&& k < before.len() ==> before[k].0 >= cutoff
}

/// The values of a sequence of timestamped items.
pub open spec fn item_values<T>(s: Seq<(u64, T)>) -> Seq<T> {
    Seq::new(s.len(), |i: int| s[i].1)
}

/// Running minimum as `min_max` computes it: an item replaces the current
/// minimum only when it compares strictly below it.
pub open spec fn fold_min<T: PartialOrd>(s: Seq<T>) -> Option<T>
    decreases s.len(),
{
    if s.len() == 0 {
        None
    } else {
        match fold_min(s.drop_last()) {
            None => Some(s.last()),
            Some(m) => if s.last().is_lt(&m) {
                Some(s.last())
            } else {
                Some(m)
            },
        }
    }
}

/// Running maximum as `min_max` computes it: an item replaces the current
/// maximum only when it compares strictly above it.
pub open spec fn fold_max<T: PartialOrd>(s: Seq<T>) -> Option<T>
    decreases s.len(),
{
    if s.len() == 0 {
        None
    } else {
        match fold_max(s.drop_last()) {
            None => Some(s.last()),
            Some(m) => if s.last().is_gt(&m) {
                Some(s.last())
            } else {
                Some(m)
            },
        }
    }
}

impl<T> View for TimeRingBuffer<T> {
    type V = Seq<(u64, T)>;

    closed spec fn view(&self) -> Seq<(u64, T)> {
        ring_items(self.buffer@, self.tail as int, self.head as int)
    }
}

proof fn lemma_mod_step(x: usize, cap: usize)
    requires
        x < cap,
    ensures
        (x + 1) % (cap as int) == if x + 1 < cap {
            x + 1
        } else {
            0
        },
{
    if x + 1 < cap {
        vstd::arithmetic::div_mod::lemma_small_mod((x + 1) as nat, cap as nat);
    } else {
        vstd::arithmetic::div_mod::lemma_mod_self_0(cap as int);
    }
}

impl<T> TimeRingBuffer<T> {
    /// Well-formedness: the slot count matches the backing vector, the
    /// cursors lie inside it and every live slot holds an item.
    pub closed spec fn wf(&self) -> bool {
        &&& self.capacity == self.buffer.len()
        &&& self.capacity >= 1
        &&& self.head < self.capacity
        &&& self.tail < self.capacity
        &&& ring_filled(self.buffer@, self.tail as int, self.head as int)
    }

    /// Most items the buffer holds at once.
    pub closed spec fn max_len(&self) -> nat {
        (self.capacity - 1) as nat
    }

    /// Width of the time window, in microseconds.
    pub closed spec fn window(&self) -> u64 {
        self.window_micros
    }

    /// An empty buffer for at most `max_elements` items and the given window.
    pub fn new(max_elements: usize, window_micros: u64) -> (rb: Self)
        requires
            max_elements < usize::MAX,
        ensures
            rb.wf(),
            rb@ == Seq::<(u64, T)>::empty(),
            rb.max_len() == max_elements,
            rb.window() == window_micros,
    {
        let capacity = max_elements + 1;
        let mut buffer: Vec<Option<(u64, T)>> = Vec::with_capacity(capacity);
        let mut k: usize = 0;
        while k < capacity
            invariant
                k <= capacity,
                buffer.len() == k,
            decreases capacity - k,
        {
            buffer.push(None);
            k = k + 1;
        }
        let rb = TimeRingBuffer { buffer, head: 0, tail: 0, capacity, window_micros };
        assert(rb@ =~= Seq::<(u64, T)>::empty());
        rb
    }

    /// Appends an item; when the buffer is full the oldest item is evicted.
    pub fn push(&mut self, timestamp: u64, item: T)
        requires
            old(self).wf(),
        ensures
            final(self).wf(),
            final(self)@ == pushed(old(self)@, old(self).max_len(), (timestamp, item)),
            final(self).max_len() == old(self).max_len(),
            final(self).window() == old(self).window(),
    {
        let ghost old_buf = self.buffer@;
        let ghost c = self.capacity as int;
        let ghost t0 = self.tail as int;
        let ghost h0 = self.head as int;
        let ghost n = ring_count(t0, h0, c);
        proof {
            lemma_mod_step(self.head, self.capacity);
        }
        let next_head = (self.head + 1) % self.capacity;
        let full = next_head == self.tail;
        if full {
            proof {
                lemma_mod_step(self.tail, self.capacity);
            }
            self.tail = (self.tail + 1) % self.capacity;
        }
        self.buffer.set(self.head, Some((timestamp, item)));
        self.head = next_head;
        proof {
            let entry = (timestamp, item);
            let s = ring_items(old_buf, t0, h0);
            let t = s.push(entry);
            let nb = self.buffer@;
            assert(nb == old_buf.update(h0, Some(entry)));
            assert(ring_slot(t0, n, c) == h0);
            if full {
                assert(n == c - 1);
                assert forall|i: int|
                    0 <= i < ring_count(self.tail as int, self.head as int, c) implies (#[trigger] nb[ring_slot(
                    self.tail as int,
                    i,
                    c,
                )]) is Some by {
                    assert(ring_slot(self.tail as int, i, c) == ring_slot(t0, i + 1, c));
                    if i + 1 < n {
                        assert(old_buf[ring_slot(t0, i + 1, c)] is Some);
                    }
                }
                assert(self@ =~= t.drop_first()) by {
                    assert forall|i: int| 0 <= i < t.len() - 1 implies #[trigger] self@[i] == t.drop_first()[i] by {
                        assert(ring_slot(self.tail as int, i, c) == ring_slot(t0, i + 1, c));
                    }
                }
            } else {
                assert(n < c - 1);
                assert forall|i: int|
                    0 <= i < ring_count(self.tail as int, self.head as int, c) implies (#[trigger] nb[ring_slot(
                    self.tail as int,
                    i,
                    c,
                )]) is Some by {
                    if i < n {
                        assert(old_buf[ring_slot(t0, i, c)] is Some);
                    }
                }
                assert(self@ =~= t);
            }
        }
    }

    /// Drops the leading items stamped before `current_time - window`
    /// (the subtraction saturating at zero).
    pub fn prune_expired(&mut self, current_time: u64)
        requires
            old(self).wf(),
        ensures
            final(self).wf(),
            pruned(
                old(self)@,
                if current_time >= old(self).window() {
                    (current_time - old(self).window()) as u64
                } else {
                    0u64
                },
                final(self)@,
            ),
            final(self).max_len() == old(self).max_len(),
            final(self).window() == old(self).window(),
    {
        if self.head == self.tail {
            proof {
                assert(old(self)@.skip(0) =~= old(self)@);
            }
            return;
        }
        let cutoff = current_time.saturating_sub(self.window_micros);
        let ghost s = self@;
        let ghost t0 = self.tail as int;
        let ghost c = self.capacity as int;
        let ghost k: int = 0;
        while self.head != self.tail
            invariant_except_break
                self.wf(),
                self.buffer@ == old(self).buffer@,
                self.capacity == old(self).capacity,
                self.head == old(self).head,
                self.window_micros == old(self).window_micros,
                s == old(self)@,
                c == self.capacity,
                t0 == old(self).tail,
                0 <= t0 < c,
                0 <= k <= s.len(),
                self.tail as int == ring_slot(t0, k, c),
                self@ == s.skip(k),
                forall|i: int| 0 <= i < k ==> (#[trigger] s[i]).0 < cutoff,
                cutoff == (if current_time >= self.window_micros {
                    (current_time - self.window_micros) as u64
                } else {
                    0u64
                }),
            ensures
                self.wf(),
                self.buffer@ == old(self).buffer@,
                self.capacity == old(self).capacity,
                self.window_micros == old(self).window_micros,
                pruned(s, cutoff, self@),
                s == old(self)@,
            decreases ring_count(self.tail as int, self.head as int, self.capacity as int),
        {
            let idx = self.tail;
            proof {
                assert(self@.len() > 0);
                assert(self@[0] == s[k]);
                lemma_mod_step(self.tail, self.capacity);
            }
            let expired = match &self.buffer[idx] {
                Some((ts, _)) => *ts < cutoff,
                None => true,
            };
            if expired {
                let ghost prev = self@;
                self.tail = (self.tail + 1) % self.capacity;
                proof {
                    assert(s.len() < c);
                    assert(k < s.len());
                    assert(idx as int == ring_slot(t0, k, c));
                    assert(self.tail as int == ring_slot(t0, k + 1, c));
                    k = k + 1;
                    assert forall|i: int|
                        0 <= i < ring_count(self.tail as int, self.head as int, c) implies (#[trigger] self.buffer@[ring_slot(
                        self.tail as int,
                        i,
                        c,
                    )]) is Some by {
                        assert(ring_slot(self.tail as int, i, c) == ring_slot(idx as int, i + 1, c));
                        assert(self.buffer@[ring_slot(idx as int, i + 1, c)] is Some);
                    }
                    assert(self@ =~= s.skip(k)) by {
                        assert forall|i: int| 0 <= i < self@.len() implies #[trigger] self@[i] == s.skip(k)[i] by {
                            assert(ring_slot(self.tail as int, i, c) == ring_slot(idx as int, i + 1, c));
                            assert(self@[i] == prev[i + 1]);
                            assert(prev[i + 1] == s.skip(k - 1)[i + 1]);
                        }
                    }
                }
            } else {
                proof {
                    assert(s.len() - self@.len() == k);
                }
                break;
            }
        }
        proof {
            if self.head == self.tail {
                assert(self@.len() == 0);
            }
        }
    }

    /// Number of items held.
    pub fn len(&self) -> (n: usize)
        requires
            self.wf(),
        ensures
            n == self@.len(),
    {
        if self.head >= self.tail {
            self.head - self.tail
        } else {
            self.capacity - self.tail + self.head
        }
    }

    /// Whether the buffer holds no item.
    pub fn is_empty(&self) -> (b: bool)
        requires
            self.wf(),
        ensures
            b == (self@.len() == 0),
    {
        self.head == self.tail
    }

    /// A cursor over the held values, oldest first.
    pub fn iter(&self) -> (it: Iter<'_, T>)
        requires
            self.wf(),
        ensures
            it.wf(),
            it.remaining() == item_values(self@),
    {
        let it = Iter { buffer: &self.buffer, current: self.tail, head: self.head, capacity: self.capacity };
        assert(it.remaining() =~= item_values(self@));
        it
    }

    /// The running minimum and maximum of the held values, oldest first:
    /// `(None, None)` when empty.
    pub fn min_max(&self) -> (r: (Option<T>, Option<T>))
        where T: PartialOrd + Copy
        requires
            self.wf(),
        ensures
            (r.0 is None) == (self@.len() == 0),
            (r.1 is None) == (self@.len() == 0),
            r.0 is Some ==> item_values(self@).contains(r.0->0),
            r.1 is Some ==> item_values(self@).contains(r.1->0),
            T::obeys_partial_cmp_spec() ==> r.0 == fold_min(item_values(self@)),
            T::obeys_partial_cmp_spec() ==> r.1 == fold_max(item_values(self@)),
    {
        if self.is_empty() {
            return (None, None);
        }
        let ghost vals = item_values(self@);
        let mut min_val: Option<T> = None;
        let mut max_val: Option<T> = None;
        let mut it = self.iter();
        let ghost k: int = 0;
        loop
            invariant
                it.wf(),
                0 <= k <= vals.len(),
                it.remaining() == vals.skip(k),
                vals.len() > 0,
                (min_val is None) == (k == 0),
                (max_val is None) == (k == 0),
                min_val is Some ==> vals.take(k).contains(min_val->0),
                max_val is Some ==> vals.take(k).contains(max_val->0),
                T::obeys_partial_cmp_spec() ==> min_val == fold_min(vals.take(k)),
                T::obeys_partial_cmp_spec() ==> max_val == fold_max(vals.take(k)),
            ensures
                k == vals.len(),
                min_val is Some,
                max_val is Some,
                vals.contains(min_val->0),
                vals.contains(max_val->0),
                T::obeys_partial_cmp_spec() ==> min_val == fold_min(vals),
                T::obeys_partial_cmp_spec() ==> max_val == fold_max(vals),
            decreases it.remaining().len(),
        {
            match it.next() {
                None => {
                    proof {
                        assert(vals.take(k) =~= vals);
                    }
                    break;
                },
                Some(item) => {
                    let x = *item;
                    proof {
                        assert(x == vals[k]);
                        assert(vals.take(k + 1).drop_last() =~= vals.take(k));
                        assert(vals.take(k + 1).last() == x);
                    }
                    match min_val {
                        None => min_val = Some(x),
                        Some(m) => {
                            if x < m {
                                min_val = Some(x);
                            }
                        },
                    }
                    match max_val {
                        None => max_val = Some(x),
                        Some(m) => {
                            if x > m {
                                max_val = Some(x);
                            }
                        },
                    }
                    proof {
                        assert(vals.take(k + 1)[k] == x);
                        assert forall|y: T| vals.take(k).contains(y) implies vals.take(k + 1).contains(y) by {
                            let j = choose|j: int| 0 <= j < k && vals.take(k)[j] == y;
                            assert(vals.take(k + 1)[j] == y);
                        }
                        k = k + 1;
                        assert(it.remaining() =~= vals.skip(k));
                    }
                },
            }
        }
        (min_val, max_val)
    }
}

/// A buffer never holds more than the `max_elements` it was made with.
pub proof fn law_len_bounded<T>(rb: &TimeRingBuffer<T>)
    requires
        rb.wf(),
    ensures
        rb@.len() <= rb.max_len(),
{
}

/// Cursor over the values of a [`TimeRingBuffer`], oldest first.
pub struct Iter<'a, T> {
    buffer: &'a Vec<Option<(u64, T)>>,
    current: usize,
    head: usize,
    capacity: usize,
}

impl<'a, T> Iter<'a, T> {
    /// Well-formedness: the cursors lie inside the ring and every slot still
    /// to visit holds an item.
    pub closed spec fn wf(&self) -> bool {
        &&& self.capacity == self.buffer.len()
        &&& self.capacity >= 1
        &&& self.head < self.capacity
        &&& self.current < self.capacity
        &&& ring_filled(self.buffer@, self.current as int, self.head as int)
    }

    /// The values still to visit, in order.
    pub closed spec fn remaining(&self) -> Seq<T> {
        item_values(ring_items(self.buffer@, self.current as int, self.head as int))
    }

    /// Hands out the next value, or `None` when every value was visited.
    pub fn next(&mut self) -> (r: Option<&'a T>)
        requires
            old(self).wf(),
        ensures
            final(self).wf(),
            match r {
                None => old(self).remaining().len() == 0 && final(self).remaining() == old(
                    self,
                ).remaining(),
                Some(v) => old(self).remaining().len() > 0 && *v == old(self).remaining()[0]
                    && final(self).remaining() == old(self).remaining().drop_first(),
            },
    {
        if self.current == self.head {
            return None;
        }
        let idx = self.current;
        let ghost c = self.capacity as int;
        let ghost before = self.remaining();
        proof {
            lemma_mod_step(self.current, self.capacity);
            assert(ring_slot(idx as int, 0, c) == idx);
        }
        self.current = (self.current + 1) % self.capacity;
        proof {
            assert forall|i: int|
                0 <= i < ring_count(self.current as int, self.head as int, c) implies (#[trigger] self.buffer@[ring_slot(
                self.current as int,
                i,
                c,
            )]) is Some by {
                assert(ring_slot(self.current as int, i, c) == ring_slot(idx as int, i + 1, c));
            }
            assert(self.remaining() =~= before.drop_first()) by {
                assert forall|i: int| 0 <= i < self.remaining().len() implies #[trigger] self.remaining()[i] == before.drop_first()[i] by {
                    assert(ring_slot(self.current as int, i, c) == ring_slot(idx as int, i + 1, c));
                }
            }
        }
        match &self.buffer[idx] {
            Some((_, val)) => Some(val),
            None => None,
        }
    }

    /// Gathers every value still to visit, in order.
    pub fn collect(self) -> (v: Vec<&'a T>)
        requires
            self.wf(),
        ensures
            v@.len() == self.remaining().len(),
            forall|i: int| 0 <= i < v@.len() ==> *v@[i] == self.remaining()[i],
    {
        let ghost all = self.remaining();
        let mut it = self;
        let mut out: Vec<&'a T> = Vec::new();
        loop
            invariant
                it.wf(),
                out@.len() + it.remaining().len() == all.len(),
                it.remaining() == all.skip(out@.len() as int),
                forall|i: int| 0 <= i < out@.len() ==> *out@[i] == all[i],
            ensures
                out@.len() == all.len(),
                forall|i: int| 0 <= i < out@.len() ==> *out@[i] == all[i],
            decreases it.remaining().len(),
        {
            match it.next() {
                None => break,
                Some(x) => {
                    proof {
                        assert(*x == all[out@.len() as int]);
                    }
                    out.push(x);
                    proof {
                        assert(it.remaining() =~= all.skip(out@.len() as int));
                    }
                },
            }
        }
        out
    }
}

/// Over integer items (keys of doubles among them), the minimum and maximum
/// `min_max` gives of a non-empty window are items of it and bound every
/// item; an empty window gives neither.
pub proof fn law_min_max_bounds(s: Seq<u64>)
    ensures
        s.len() == 0 ==> fold_min(s) is None && fold_max(s) is None,
        s.len() > 0 ==> {
            &&& fold_min(s) is Some && fold_max(s) is Some
            &&& s.contains(fold_min(s)->0) && s.contains(fold_max(s)->0)
            &&& forall|i: int| 0 <= i < s.len() ==> fold_min(s)->0 <= #[trigger] s[i] && s[i] <= fold_max(s)->0
        },
    decreases s.len(),
{
    if s.len() > 0 {
        let p = s.drop_last();
        law_min_max_bounds(p);
        if p.len() > 0 {
            assert(p.contains(fold_min(p)->0));
            assert(p.contains(fold_max(p)->0));
            let jm = choose|j: int| 0 <= j < p.len() && p[j] == fold_min(p)->0;
            let jx = choose|j: int| 0 <= j < p.len() && p[j] == fold_max(p)->0;
            assert(s[jm] == p[jm]);
            assert(s[jx] == p[jx]);
            assert forall|i: int| 0 <= i < s.len() implies fold_min(s)->0 <= #[trigger] s[i] && s[i] <= fold_max(s)->0 by {
                if i < s.len() - 1 {
                    assert(s[i] == p[i]);
                }
            }
        } else {
            assert(s[0] == s.last());
        }
        assert(s[s.len() - 1] == s.last());
    }
}

/// `s[i] <= s[j]` by the items' comparison.
pub open spec fn le_at<T: PartialOrd>(s: Seq<T>, i: int, j: int) -> bool {
    s[i].is_le(&s[j])
}

/// `s[i] < s[j]` by the items' comparison.
pub open spec fn lt_at<T: PartialOrd>(s: Seq<T>, i: int, j: int) -> bool {
    s[i].is_lt(&s[j])
}

/// `s[i] > s[j]` by the items' comparison.
pub open spec fn gt_at<T: PartialOrd>(s: Seq<T>, i: int, j: int) -> bool {
    s[i].is_gt(&s[j])
}

/// The items of `s` are totally ordered by their comparison (no NaN among
/// them): each is equal to itself, `<=` chains, any two compare one way or
/// the other, and `>` is the mirror of `<`. Integers are (see
/// [`lemma_integers_totally_ordered`]).
pub open spec fn totally_ordered<T: PartialOrd>(s: Seq<T>) -> bool {
    &&& forall|i: int| 0 <= i < s.len() ==> #[trigger] le_at(s, i, i)
    &&& forall|i: int, j: int, k: int|
        #![trigger le_at(s, i, j), le_at(s, j, k)]
        0 <= i < s.len() && 0 <= j < s.len() && 0 <= k < s.len() && le_at(s, i, j) && le_at(s, j, k)
            ==> le_at(s, i, k)
    &&& forall|i: int, j: int| 0 <= i < s.len() && 0 <= j < s.len() ==> #[trigger] lt_at(s, i, j) || le_at(s, j, i)
    &&& forall|i: int, j: int|
        #![trigger gt_at(s, i, j)]
        #![trigger lt_at(s, j, i)]
        0 <= i < s.len() && 0 <= j < s.len() ==> (gt_at(s, i, j) <==> lt_at(s, j, i))
}

/// Over totally ordered items, the minimum and maximum `min_max` gives of a
/// non-empty window are items of it and bound every item; an empty window
/// gives neither.
pub proof fn law_min_max_bounds_ordered<T: PartialOrd>(s: Seq<T>)
    requires
        totally_ordered(s),
    ensures
        s.len() == 0 ==> fold_min(s) is None && fold_max(s) is None,
        s.len() > 0 ==> {
            &&& fold_min(s) is Some && fold_max(s) is Some
            &&& s.contains(fold_min(s)->0) && s.contains(fold_max(s)->0)
            &&& forall|i: int| 0 <= i < s.len() ==> fold_min(s)->0.is_le(&s[i]) && (#[trigger] s[i]).is_le(&fold_max(s)->0)
        },
    decreases s.len(),
{
    if s.len() > 0 {
        let p = s.drop_last();
        let n = s.len() - 1;
        assert(s.last() == s[n]);
        assert(totally_ordered(p)) by {
            assert forall|i: int, j: int| 0 <= i < p.len() && 0 <= j < p.len() implies le_at(p, i, j) == le_at(s, i, j)
                && lt_at(p, i, j) == lt_at(s, i, j) && gt_at(p, i, j) == gt_at(s, i, j) by {
                assert(p[i] == s[i] && p[j] == s[j]);
            }
            assert forall|i: int, j: int, k: int|
                #![trigger le_at(p, i, j), le_at(p, j, k)]
                0 <= i < p.len() && 0 <= j < p.len() && 0 <= k < p.len() && le_at(p, i, j) && le_at(p, j, k)
                    implies le_at(p, i, k) by {
                assert(le_at(s, i, j) && le_at(s, j, k));
            }
            assert forall|i: int, j: int| 0 <= i < p.len() && 0 <= j < p.len() implies #[trigger] lt_at(p, i, j)
                || le_at(p, j, i) by {
                assert(lt_at(s, i, j) || le_at(s, j, i));
            }
            assert forall|i: int, j: int|
                #![trigger gt_at(p, i, j)]
                #![trigger lt_at(p, j, i)]
                0 <= i < p.len() && 0 <= j < p.len() implies (gt_at(p, i, j) <==> lt_at(p, j, i)) by {
                assert(gt_at(s, i, j) <==> lt_at(s, j, i));
            }
            assert forall|i: int| 0 <= i < p.len() implies #[trigger] le_at(p, i, i) by {
                assert(le_at(s, i, i));
            }
        }
        law_min_max_bounds_ordered(p);
        assert(le_at(s, n, n));
        if p.len() > 0 {
            let jm = choose|j: int| 0 <= j < p.len() && p[j] == fold_min(p)->0;
            let jx = choose|j: int| 0 <= j < p.len() && p[j] == fold_max(p)->0;
            assert(p[jm] == s[jm]);
            assert(p[jx] == s[jx]);
            assert(lt_at(s, n, jm) || le_at(s, jm, n));
            assert(lt_at(s, jx, n) || le_at(s, n, jx));
            if gt_at(s, n, jx) {
                assert(lt_at(s, jx, n));
            }
            assert forall|i: int| 0 <= i < s.len() implies fold_min(s)->0.is_le(&s[i]) && (#[trigger] s[i]).is_le(
                &fold_max(s)->0,
            ) by {
                if i < n {
                    assert(s[i] == p[i]);
                    assert(le_at(s, jm, i));
                    assert(le_at(s, i, jx));
                    if lt_at(s, n, jm) {
                        assert(le_at(s, n, jm) && le_at(s, jm, i));
                        assert(le_at(s, n, i));
                    }
                    if gt_at(s, n, jx) {
                        assert(le_at(s, i, jx) && le_at(s, jx, n));
                        assert(le_at(s, i, n));
                    }
                } else {
                    if !lt_at(s, n, jm) {
                        assert(le_at(s, jm, n));
                    }
                    if !gt_at(s, n, jx) {
                        assert(!lt_at(s, jx, n));
                        assert(le_at(s, n, jx));
                    }
                }
            }
            assert(s.contains(s[jm]));
            assert(s.contains(s[jx]));
        }
        assert(s.contains(s[n]));
    }
}

/// Every sequence of integers is totally ordered.
pub proof fn lemma_integers_totally_ordered(s: Seq<u64>)
    ensures
        totally_ordered(s),
{
}

} // verus!
