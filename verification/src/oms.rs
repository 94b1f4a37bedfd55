use vstd::prelude::*;
use crate::types::{key_fits, key_lt, Order, OrderRequest, OrderStatus, OrdKey, OrderStatusData, FillData, StateSyncData, KEY_ZERO};
use crate::strmap::StrMap;

verus! {

/// Order identifiers are pairwise distinct.
pub open spec fn unique_ids(s: Seq<Order>) -> bool {
    forall|i: int, j: int| 0 <= i < j < s.len() ==> s[i].order_id != s[j].order_id
}

/// Some order carries `id`.
pub open spec fn has_order(s: Seq<Order>, id: u64) -> bool {
    exists|i: int| 0 <= i < s.len() && s[i].order_id == id
}

/// The order carrying `id` (meaningful when `has_order(s, id)`).
pub open spec fn order_in(s: Seq<Order>, id: u64) -> Order {
    s[choose|i: int| 0 <= i < s.len() && s[i].order_id == id]
}

/// `s` with `f` applied to the order(s) carrying `id`.
pub open spec fn update_order(s: Seq<Order>, id: u64, f: spec_fn(Order) -> Order) -> Seq<Order> {
    s.map_values(|o: Order| if o.order_id == id { f(o) } else { o })
}

/// Statuses from which no cancel may be requested.
pub open spec fn is_cancel_terminal(st: OrderStatus) -> bool {
    st == OrderStatus::Filled || st == OrderStatus::Cancelled || st == OrderStatus::Rejected
        || st == OrderStatus::CancelRejected || st == OrderStatus::CancelTimeout
}

/// Statuses of an order that is still working at the broker.
pub open spec fn is_working(st: OrderStatus) -> bool {
    st == OrderStatus::Pending || st == OrderStatus::Live
}

/// Statuses of an order whose cancel is in flight.
pub open spec fn is_cancelling(st: OrderStatus) -> bool {
    st == OrderStatus::PendingCancel || st == OrderStatus::CancelSent
}

pub open spec fn cancel_step(o: Order, ts: u64) -> Order {
    if is_working(o.status) {
        Order { status: OrderStatus::PendingCancel, updated_at: ts, ..o }
    } else {
        o
    }
}

pub open spec fn cancel_result(s: Seq<Order>, id: u64) -> Result<bool, &'static str> {
    if !has_order(s, id) {
        Err("Order not found")
    } else if is_working(order_in(s, id).status) {
        Ok(true)
    } else if is_cancelling(order_in(s, id).status) {
        Ok(false)
    } else {
        Err("Order in terminal state, cannot cancel")
    }
}

pub open spec fn ack_step(o: Order, broker_id: String) -> Order {
    Order {
        broker_order_id: Some(broker_id),
        status: if o.status == OrderStatus::Pending { OrderStatus::Live } else { o.status },
        ..o
    }
}

pub open spec fn fill_step(o: Order, size: u32, avg: OrdKey, ts: u64) -> Order {
    let filled = (o.filled_qty + size) as u32;
    Order {
        updated_at: ts,
        filled_qty: filled,
        avg_fill_price: if filled > 0 { avg } else { o.avg_fill_price },
        status: if filled >= o.qty { OrderStatus::Filled } else { OrderStatus::Live },
        ..o
    }
}

pub open spec fn status_step(o: Order, d: OrderStatusData, ts: u64) -> Order {
    Order {
        updated_at: ts,
        status: d.status,
        filled_qty: d.filled_qty,
        avg_fill_price: if key_lt(OrdKey(KEY_ZERO), d.avg_fill_price) { d.avg_fill_price } else { o.avg_fill_price },
        ..o
    }
}

pub open spec fn cancel_sent_step(o: Order, ts: u64) -> Order {
    if o.status == OrderStatus::PendingCancel {
        Order { status: OrderStatus::CancelSent, updated_at: ts, ..o }
    } else {
        o
    }
}

pub open spec fn cancel_ack_step(o: Order, ts: u64) -> Order {
    if is_cancelling(o.status) || o.status == OrderStatus::CancelTimeout {
        Order { status: OrderStatus::Cancelled, updated_at: ts, ..o }
    } else {
        o
    }
}

pub open spec fn cancel_reject_step(o: Order, ts: u64) -> Order {
    if is_cancelling(o.status) {
        Order { status: OrderStatus::CancelRejected, updated_at: ts, ..o }
    } else {
        o
    }
}

/// An order still working at the broker that has been working longer than `timeout`.
pub open spec fn is_timed_out(o: Order, now: u64, timeout: u64) -> bool {
    is_working(o.status) && now > o.created_at && now - o.created_at > timeout
}

/// An order whose cancel has been in flight longer than `timeout`.
pub open spec fn is_cancel_timed_out(o: Order, now: u64, timeout: u64) -> bool {
    is_cancelling(o.status) && now > o.updated_at && now - o.updated_at > timeout
}

pub open spec fn cancel_timeout_step(o: Order, now: u64, timeout: u64) -> Order {
    if is_cancel_timed_out(o, now, timeout) {
        Order { status: OrderStatus::CancelTimeout, ..o }
    } else {
        o
    }
}

/// The ids of the orders satisfying `p`, in order.
pub open spec fn ids_where(s: Seq<Order>, p: spec_fn(Order) -> bool) -> Seq<u64>
    decreases s.len(),
{
    if s.len() == 0 {
        Seq::empty()
    } else {
        let r = ids_where(s.drop_last(), p);
        if p(s.last()) {
            r.push(s.last().order_id)
        } else {
            r
        }
    }
}

/// The order that a new request becomes.
pub open spec fn order_from_request(req: OrderRequest, id: u64, ts: u64) -> Order {
    Order {
        order_id: id,
        client_order_id: req.idempotency_key,
        broker_order_id: None,
        symbol_id: req.symbol_id,
        side: req.side,
        qty: req.qty,
        filled_qty: 0,
        avg_fill_price: OrdKey(KEY_ZERO),
        order_type: req.order_type,
        limit_price: req.limit_price,
        stop_price: req.stop_price,
        status: OrderStatus::Pending,
        created_at: ts,
        updated_at: ts,
    }
}

/// State of the order book while broker truth is applied.
#[verifier::ext_equal]
pub struct SyncModel {
    pub orders: Seq<Order>,
    pub cache: Map<Seq<char>, u64>,
    pub broker: Map<Seq<char>, u64>,
    pub next_id: u64,
    /// Broker ids reported open so far.
    pub seen: Seq<Seq<char>>,
}

/// A local order takes the broker's status, fill quantity and average price.
pub open spec fn sync_refresh_step(o: Order, bo: Order) -> Order {
    Order { status: bo.status, filled_qty: bo.filled_qty, avg_fill_price: bo.avg_fill_price, ..o }
}

/// A local order learns its broker id and takes the broker's state.
pub open spec fn sync_link_step(o: Order, bo: Order, b: String) -> Order {
    Order {
        broker_order_id: Some(b),
        status: bo.status,
        filled_qty: bo.filled_qty,
        avg_fill_price: bo.avg_fill_price,
        ..o
    }
}

/// Applies one open order reported by the broker.
pub open spec fn sync_apply(m: SyncModel, bo: Order) -> SyncModel {
    match bo.broker_order_id {
        None => m,
        Some(b) => {
            let m1 = SyncModel { seen: m.seen.push(b@), ..m };
            if m.broker.contains_key(b@) {
                SyncModel {
                    orders: update_order(m.orders, m.broker[b@], |o: Order| sync_refresh_step(o, bo)),
                    ..m1
                }
            } else if m.cache.contains_key(bo.client_order_id@) {
                let id = m.cache[bo.client_order_id@];
                if has_order(m.orders, id) {
                    SyncModel {
                        orders: update_order(m.orders, id, |o: Order| sync_link_step(o, bo, b)),
                        broker: m.broker.insert(b@, id),
                        ..m1
                    }
                } else {
                    m1
                }
            } else {
                let nid = m.next_id;
                SyncModel {
                    orders: m.orders.push(Order { order_id: nid, ..bo }),
                    broker: m.broker.insert(b@, nid),
                    cache: if bo.client_order_id@.len() > 0 {
                        m.cache.insert(bo.client_order_id@, nid)
                    } else {
                        m.cache
                    },
                    next_id: (nid + 1) as u64,
                    ..m1
                }
            }
        }
    }
}

/// Applies the broker's open orders in turn.
pub open spec fn sync_all(m: SyncModel, s: Seq<Order>) -> SyncModel
    decreases s.len(),
{
    if s.len() == 0 {
        m
    } else {
        sync_apply(sync_all(m, s.drop_last()), s.last())
    }
}

/// A working order that the broker did not report open.
pub open spec fn is_stale(o: Order, seen: Seq<Seq<char>>) -> bool {
    is_working(o.status) && match o.broker_order_id {
        Some(b) => !seen.contains(b@),
        None => true,
    }
}

pub open spec fn stale_step(o: Order, seen: Seq<Seq<char>>) -> Order {
    if is_stale(o, seen) {
        Order { status: OrderStatus::Cancelled, ..o }
    } else {
        o
    }
}

/// The texts of a list of strings.
pub open spec fn texts(v: Seq<String>) -> Seq<Seq<char>> {
    v.map_values(|x: String| x@)
}

/// The book after broker truth has been applied.
pub open spec fn reconciled(m0: SyncModel, open: Seq<Order>) -> SyncModel {
    let m = sync_all(m0, open);
    SyncModel { orders: m.orders.map_values(|o: Order| stale_step(o, m.seen)), ..m }
}

fn contains_text(v: &Vec<String>, s: &String) -> (r: bool)
    ensures
        r == texts(v@).contains(s@),
{
    let n = v.len();
    let mut i: usize = 0;
    while i < n
        invariant
            n == v@.len(),
            i <= n,
            forall|j: int| 0 <= j < i ==> v@[j]@ != s@,
        decreases n - i,
    {
        if v[i] == *s {
            assert(texts(v@)[i as int] == s@);
            return true;
        }
        i = i + 1;
    }
    assert(!texts(v@).contains(s@)) by {
        if texts(v@).contains(s@) {
            let j = choose|j: int| 0 <= j < texts(v@).len() && texts(v@)[j] == s@;
            assert(v@[j]@ == s@);
        }
    }
    false
}

/// What placing `req` at `ts` does: a known idempotency key yields its order id
/// and changes nothing; a new key registers a pending order under the next id.
pub open spec fn placed(
    a: OrderManagementSystem,
    req: OrderRequest,
    ts: u64,
    b: OrderManagementSystem,
    r: Result<u64, &'static str>,
) -> bool {
    let key = req.idempotency_key@;
    if a.idempotency_cache@.contains_key(key) {
        &&& r == Ok::<u64, &'static str>(a.idempotency_cache@[key])
        &&& b == a
    } else {
        &&& r == Ok::<u64, &'static str>(a.next_id())
        &&& b.orders@ == a.orders@.push(order_from_request(req, a.next_id(), ts))
        &&& b.idempotency_cache@ == a.idempotency_cache@.insert(key, a.next_id())
        &&& b.broker_map == a.broker_map
        &&& b.next_id() == a.next_id() + 1
    }
}

/// Every idempotency key of the cache fits in its 64 bytes.
pub open spec fn keys_fit(cache: Map<Seq<char>, u64>) -> bool {
    forall|k: Seq<char>| #[trigger] cache.contains_key(k) ==> key_fits(k)
}

/// Every client order id of the broker's list fits in 64 bytes.
pub open spec fn client_ids_fit(s: Seq<Order>) -> bool {
    forall|i: int| 0 <= i < s.len() ==> key_fits((#[trigger] s[i]).client_order_id@)
}

/// Order management: order state, fills, timeouts and idempotency.
pub struct OrderManagementSystem {
    /// Orders in the order they became known.
    pub orders: Vec<Order>,
    /// Idempotency key -> internal order id.
    pub idempotency_cache: StrMap<u64>,
    /// Broker order id -> internal order id.
    pub broker_map: StrMap<u64>,
    pub next_order_id: u64,
}

impl Default for OrderManagementSystem {
    /// No order yet; the first new order gets id 1.
    fn default() -> (r: Self)
        ensures
            r.wf(),
            r.orders@ == Seq::<Order>::empty(),
            r.idempotency_cache@ == Map::<Seq<char>, u64>::empty(),
            r.broker_map@ == Map::<Seq<char>, u64>::empty(),
            r.next_id() == 1,
    {
        OrderManagementSystem::new()
    }
}

impl OrderManagementSystem {
    /// The id the next new order will receive.
    pub open spec fn next_id(&self) -> u64 {
        self.next_order_id
    }

    pub closed spec fn wf(&self) -> bool {
        &&& unique_ids(self.orders@)
        &&& forall|i: int| 0 <= i < self.orders@.len() ==> self.orders@[i].order_id < self.next_order_id
        &&& self.next_order_id >= 1
        &&& self.idempotency_cache.wf()
        &&& self.broker_map.wf()
        &&& keys_fit(self.idempotency_cache@)
    }

    pub fn new() -> (r: Self)
        ensures
            r.wf(),
            r.orders@ == Seq::<Order>::empty(),
            r.idempotency_cache@ == Map::<Seq<char>, u64>::empty(),
            r.broker_map@ == Map::<Seq<char>, u64>::empty(),
            r.next_id() == 1,
    {
        OrderManagementSystem {
            orders: Vec::new(),
            idempotency_cache: StrMap::new(),
            broker_map: StrMap::new(),
            next_order_id: 1,
        }
    }

    fn find_index(&self, id: u64) -> (r: Option<usize>)
        requires
            self.wf(),
        ensures
            match r {
                Some(i) => i < self.orders@.len() && self.orders@[i as int].order_id == id,
                None => !has_order(self.orders@, id),
            },
    {
        let n = self.orders.len();
        let mut i: usize = 0;
        while i < n
            invariant
                n == self.orders@.len(),
                i <= n,
                forall|j: int| 0 <= j < i ==> self.orders@[j].order_id != id,
            decreases n - i,
        {
            if self.orders[i].order_id == id {
                return Some(i);
            }
            i = i + 1;
        }
        None
    }

    /// The order with internal id `id`, if known.
    pub fn get_order(&self, id: u64) -> (r: Option<&Order>)
        requires
            self.wf(),
        ensures
            match r {
                Some(o) => has_order(self.orders@, id) && *o == order_in(self.orders@, id),
                None => !has_order(self.orders@, id),
            },
    {
        match self.find_index(id) {
            Some(i) => Some(&self.orders[i]),
            None => None,
        }
    }

    /// Requests cancellation of an order.
    ///
    /// `Ok(true)`: newly marked `PendingCancel`; `Ok(false)`: a cancel is already
    /// in flight, nothing changes; `Err`: unknown order or terminal state.
    pub fn cancel_order(&mut self, order_id: u64, timestamp_us: u64) -> (r: Result<bool, &'static str>)
        requires
            old(self).wf(),
        ensures
            final(self).wf(),
            r == cancel_result(old(self).orders@, order_id),
            final(self).orders@ == update_order(old(self).orders@, order_id, |o: Order| cancel_step(o, timestamp_us)),
            final(self).idempotency_cache == old(self).idempotency_cache,
            final(self).broker_map == old(self).broker_map,
            final(self).next_id() == old(self).next_id(),
    {
        let ghost s = self.orders@;
        match self.find_index(order_id) {
            None => {
                assert(update_order(s, order_id, |o: Order| cancel_step(o, timestamp_us)) =~= s);
                Err("Order not found")
            }
            Some(i) => {
                proof { lemma_order_at(s, i as int); }
                let st = self.orders[i].status;
                match st {
                    OrderStatus::Pending | OrderStatus::Live => {
                        self.orders[i].status = OrderStatus::PendingCancel;
                        self.orders[i].updated_at = timestamp_us;
                        assert(self.orders@ =~= s.update(i as int, cancel_step(s[i as int], timestamp_us)));
                        proof { lemma_update_at(s, i as int, |o: Order| cancel_step(o, timestamp_us), self.orders@); }
                        Ok(true)
                    }
                    OrderStatus::PendingCancel | OrderStatus::CancelSent => {
                        assert(self.orders@ =~= s.update(i as int, cancel_step(s[i as int], timestamp_us)));
                        proof { lemma_update_at(s, i as int, |o: Order| cancel_step(o, timestamp_us), self.orders@); }
                        Ok(false)
                    }
                    _ => {
                        assert(self.orders@ =~= s.update(i as int, cancel_step(s[i as int], timestamp_us)));
                        proof { lemma_update_at(s, i as int, |o: Order| cancel_step(o, timestamp_us), self.orders@); }
                        Err("Order in terminal state, cannot cancel")
                    }
                }
            }
        }
    }

    /// The model of the book, with `seen` as the broker ids reported so far.
    pub open spec fn model(&self, seen: Seq<Seq<char>>) -> SyncModel {
        SyncModel {
            orders: self.orders@,
            cache: self.idempotency_cache@,
            broker: self.broker_map@,
            next_id: self.next_order_id,
            seen,
        }
    }

    /// Registers a new order, or returns the order already registered under the
    /// same idempotency key.
    pub fn place_order(&mut self, request: OrderRequest, timestamp_us: u64) -> (r: Result<u64, &'static str>)
        requires
            old(self).wf(),
            old(self).next_id() < u64::MAX,
            key_fits(request.idempotency_key@),
        ensures
            final(self).wf(),
            placed(*old(self), request, timestamp_us, *final(self), r),
    {
        if let Some(existing) = self.idempotency_cache.get(&request.idempotency_key) {
            return Ok(existing);
        }
        let order_id = self.next_order_id;
        self.next_order_id = self.next_order_id + 1;
        let key = request.idempotency_key.clone();
        let ghost req = request;
        let order = Order {
            order_id,
            client_order_id: request.idempotency_key,
            broker_order_id: None,
            symbol_id: request.symbol_id,
            side: request.side,
            qty: request.qty,
            filled_qty: 0,
            avg_fill_price: OrdKey::zero(),
            order_type: request.order_type,
            limit_price: request.limit_price,
            stop_price: request.stop_price,
            status: OrderStatus::Pending,
            created_at: timestamp_us,
            updated_at: timestamp_us,
        };
        assert(order == order_from_request(req, order_id, timestamp_us));
        self.orders.push(order);
        self.idempotency_cache.insert(key, order_id);
        Ok(order_id)
    }

    /// Broker acknowledgement: records the broker id; a pending order goes live.
    pub fn handle_ack(&mut self, internal_id: u64, broker_id: String)
        requires
            old(self).wf(),
        ensures
            final(self).wf(),
            final(self).orders@ == update_order(old(self).orders@, internal_id, |o: Order| ack_step(o, broker_id)),
            final(self).broker_map@ == (if has_order(old(self).orders@, internal_id) {
                old(self).broker_map@.insert(broker_id@, internal_id)
            } else {
                old(self).broker_map@
            }),
            final(self).idempotency_cache == old(self).idempotency_cache,
            final(self).next_id() == old(self).next_id(),
    {
        let ghost s = self.orders@;
        match self.find_index(internal_id) {
            None => {
                assert(update_order(s, internal_id, |o: Order| ack_step(o, broker_id)) =~= s);
            }
            Some(i) => {
                self.orders[i].broker_order_id = Some(broker_id.clone());
                if self.orders[i].status == OrderStatus::Pending {
                    self.orders[i].status = OrderStatus::Live;
                }
                assert(self.orders@ =~= s.update(i as int, ack_step(s[i as int], broker_id)));
                proof {
                    lemma_order_at(s, i as int);
                    lemma_update_at(s, i as int, |o: Order| ack_step(o, broker_id), self.orders@);
                }
                self.broker_map.insert(broker_id, internal_id);
            }
        }
    }

    /// A fill: the fill quantity is added, the order is `Filled` once the filled
    /// quantity reaches the order quantity and `Live` otherwise. `avg_fill_price`
    /// is the order's average fill price including this fill, computed by the
    /// caller; it is kept only when the filled quantity is positive.
    pub fn handle_fill(&mut self, fill: FillData, avg_fill_price: OrdKey, timestamp_us: u64)
        requires
            old(self).wf(),
            has_order(old(self).orders@, fill.order_id) ==>
                order_in(old(self).orders@, fill.order_id).filled_qty + fill.size <= u32::MAX,
        ensures
            final(self).wf(),
            final(self).orders@ == update_order(old(self).orders@, fill.order_id,
                |o: Order| fill_step(o, fill.size, avg_fill_price, timestamp_us)),
            final(self).idempotency_cache == old(self).idempotency_cache,
            final(self).broker_map == old(self).broker_map,
            final(self).next_id() == old(self).next_id(),
    {
        let ghost s = self.orders@;
        match self.find_index(fill.order_id) {
            None => {
                assert(update_order(s, fill.order_id,
                    |o: Order| fill_step(o, fill.size, avg_fill_price, timestamp_us)) =~= s);
            }
            Some(i) => {
                proof { lemma_order_at(s, i as int); }
                self.orders[i].updated_at = timestamp_us;
                let filled = self.orders[i].filled_qty + fill.size;
                self.orders[i].filled_qty = filled;
                if filled > 0 {
                    self.orders[i].avg_fill_price = avg_fill_price;
                }
                if filled >= self.orders[i].qty {
                    self.orders[i].status = OrderStatus::Filled;
                } else if self.orders[i].status != OrderStatus::Live {
                    self.orders[i].status = OrderStatus::Live;
                }
                assert(self.orders@ =~= s.update(i as int, fill_step(s[i as int], fill.size, avg_fill_price, timestamp_us)));
                proof {
                    lemma_update_at(s, i as int, |o: Order| fill_step(o, fill.size, avg_fill_price, timestamp_us), self.orders@);
                }
            }
        }
    }

    /// A status report: status and filled quantity are taken as reported; the
    /// average price only when the reported one is positive.
    pub fn handle_status(&mut self, status: OrderStatusData, timestamp_us: u64)
        requires
            old(self).wf(),
        ensures
            final(self).wf(),
            final(self).orders@ == update_order(old(self).orders@, status.order_id,
                |o: Order| status_step(o, status, timestamp_us)),
            final(self).idempotency_cache == old(self).idempotency_cache,
            final(self).broker_map == old(self).broker_map,
            final(self).next_id() == old(self).next_id(),
    {
        let ghost s = self.orders@;
        match self.find_index(status.order_id) {
            None => {
                assert(update_order(s, status.order_id, |o: Order| status_step(o, status, timestamp_us)) =~= s);
            }
            Some(i) => {
                self.orders[i].updated_at = timestamp_us;
                self.orders[i].status = status.status;
                self.orders[i].filled_qty = status.filled_qty;
                if status.avg_fill_price.gt(OrdKey::zero()) {
                    self.orders[i].avg_fill_price = status.avg_fill_price;
                }
                assert(self.orders@ =~= s.update(i as int, status_step(s[i as int], status, timestamp_us)));
                proof {
                    lemma_update_at(s, i as int, |o: Order| status_step(o, status, timestamp_us), self.orders@);
                }
            }
        }
    }

    /// The bridge has dispatched the cancel: `PendingCancel` becomes `CancelSent`.
    pub fn mark_cancel_sent(&mut self, order_id: u64, timestamp_us: u64)
        requires
            old(self).wf(),
        ensures
            final(self).wf(),
            final(self).orders@ == update_order(old(self).orders@, order_id, |o: Order| cancel_sent_step(o, timestamp_us)),
            final(self).idempotency_cache == old(self).idempotency_cache,
            final(self).broker_map == old(self).broker_map,
            final(self).next_id() == old(self).next_id(),
    {
        let ghost s = self.orders@;
        match self.find_index(order_id) {
            None => {
                assert(update_order(s, order_id, |o: Order| cancel_sent_step(o, timestamp_us)) =~= s);
            }
            Some(i) => {
                if self.orders[i].status == OrderStatus::PendingCancel {
                    self.orders[i].status = OrderStatus::CancelSent;
                    self.orders[i].updated_at = timestamp_us;
                }
                assert(self.orders@ =~= s.update(i as int, cancel_sent_step(s[i as int], timestamp_us)));
                proof {
                    lemma_update_at(s, i as int, |o: Order| cancel_sent_step(o, timestamp_us), self.orders@);
                }
            }
        }
    }

    /// Broker confirmed the cancel (also after a cancel timeout).
    pub fn handle_cancel_ack(&mut self, order_id: u64, timestamp_us: u64)
        requires
            old(self).wf(),
        ensures
            final(self).wf(),
            final(self).orders@ == update_order(old(self).orders@, order_id, |o: Order| cancel_ack_step(o, timestamp_us)),
            final(self).idempotency_cache == old(self).idempotency_cache,
            final(self).broker_map == old(self).broker_map,
            final(self).next_id() == old(self).next_id(),
    {
        let ghost s = self.orders@;
        match self.find_index(order_id) {
            None => {
                assert(update_order(s, order_id, |o: Order| cancel_ack_step(o, timestamp_us)) =~= s);
            }
            Some(i) => {
                let st = self.orders[i].status;
                if st == OrderStatus::PendingCancel || st == OrderStatus::CancelSent
                    || st == OrderStatus::CancelTimeout {
                    self.orders[i].status = OrderStatus::Cancelled;
                    self.orders[i].updated_at = timestamp_us;
                }
                assert(self.orders@ =~= s.update(i as int, cancel_ack_step(s[i as int], timestamp_us)));
                proof {
                    lemma_update_at(s, i as int, |o: Order| cancel_ack_step(o, timestamp_us), self.orders@);
                }
            }
        }
    }

    /// Broker refused the cancel.
    pub fn handle_cancel_reject(&mut self, order_id: u64, reason: &str, timestamp_us: u64)
        requires
            old(self).wf(),
        ensures
            final(self).wf(),
            final(self).orders@ == update_order(old(self).orders@, order_id, |o: Order| cancel_reject_step(o, timestamp_us)),
            final(self).idempotency_cache == old(self).idempotency_cache,
            final(self).broker_map == old(self).broker_map,
            final(self).next_id() == old(self).next_id(),
    {
        let ghost s = self.orders@;
        match self.find_index(order_id) {
            None => {
                assert(update_order(s, order_id, |o: Order| cancel_reject_step(o, timestamp_us)) =~= s);
            }
            Some(i) => {
                let st = self.orders[i].status;
                if st == OrderStatus::PendingCancel || st == OrderStatus::CancelSent {
                    self.orders[i].status = OrderStatus::CancelRejected;
                    self.orders[i].updated_at = timestamp_us;
                }
                assert(self.orders@ =~= s.update(i as int, cancel_reject_step(s[i as int], timestamp_us)));
                proof {
                    lemma_update_at(s, i as int, |o: Order| cancel_reject_step(o, timestamp_us), self.orders@);
                }
            }
        }
    }

    fn timed_out_ids(&self, now_us: u64, timeout_us: u64) -> (r: Vec<u64>)
        ensures
            r@ == ids_where(self.orders@, |o: Order| is_timed_out(o, now_us, timeout_us)),
    {
        let ghost p = |o: Order| is_timed_out(o, now_us, timeout_us);
        let mut out: Vec<u64> = Vec::new();
        let n = self.orders.len();
        let mut i: usize = 0;
        while i < n
            invariant
                n == self.orders@.len(),
                i <= n,
                out@ == ids_where(self.orders@.take(i as int), p),
                p == (|o: Order| is_timed_out(o, now_us, timeout_us)),
            decreases n - i,
        {
            let o = &self.orders[i];
            let st = o.status;
            let ghost t = self.orders@.take(i + 1);
            assert(t.drop_last() =~= self.orders@.take(i as int));
            assert(t.last() == self.orders@[i as int]);
            if (st == OrderStatus::Pending || st == OrderStatus::Live) && now_us > o.created_at
                && now_us - o.created_at > timeout_us {
                assert(p(t.last()));
                out.push(o.order_id);
            } else {
                assert(!p(t.last()));
            }
            i = i + 1;
        }
        assert(self.orders@.take(n as int) =~= self.orders@);
        out
    }

    /// Ids of working orders older than `timeout_micros`, in order.
    pub fn find_timed_out_orders(&self, now_micros: u64, timeout_micros: u64) -> (r: Vec<u64>)
        ensures
            r@ == ids_where(self.orders@, |o: Order| is_timed_out(o, now_micros, timeout_micros)),
    {
        self.timed_out_ids(now_micros, timeout_micros)
    }

    /// Ids of working orders older than `timeout_us`, in order; nothing changes.
    pub fn check_timeouts(&mut self, now_us: u64, timeout_us: u64) -> (r: Vec<u64>)
        ensures
            r@ == ids_where(old(self).orders@, |o: Order| is_timed_out(o, now_us, timeout_us)),
            *final(self) == *old(self),
    {
        self.timed_out_ids(now_us, timeout_us)
    }

    /// Cancels in flight for longer than `cancel_timeout_us` escalate to
    /// `CancelTimeout`; their ids are returned in order.
    pub fn check_cancel_timeouts(&mut self, now_us: u64, cancel_timeout_us: u64) -> (r: Vec<u64>)
        requires
            old(self).wf(),
        ensures
            final(self).wf(),
            final(self).orders@ == old(self).orders@.map_values(
                |o: Order| cancel_timeout_step(o, now_us, cancel_timeout_us)),
            r@ == ids_where(old(self).orders@, |o: Order| is_cancel_timed_out(o, now_us, cancel_timeout_us)),
            final(self).idempotency_cache == old(self).idempotency_cache,
            final(self).broker_map == old(self).broker_map,
            final(self).next_id() == old(self).next_id(),
    {
        let ghost s = self.orders@;
        let ghost p = |o: Order| is_cancel_timed_out(o, now_us, cancel_timeout_us);
        let ghost g = |o: Order| cancel_timeout_step(o, now_us, cancel_timeout_us);
        let mut out: Vec<u64> = Vec::new();
        let n = self.orders.len();
        let mut i: usize = 0;
        while i < n
            invariant
                n == self.orders@.len(),
                n == s.len(),
                i <= n,
                out@ == ids_where(s.take(i as int), p),
                p == (|o: Order| is_cancel_timed_out(o, now_us, cancel_timeout_us)),
                g == (|o: Order| cancel_timeout_step(o, now_us, cancel_timeout_us)),
                forall|j: int| 0 <= j < i ==> self.orders@[j] == g(s[j]),
                forall|j: int| i <= j < n ==> self.orders@[j] == s[j],
                self.idempotency_cache == old(self).idempotency_cache,
                self.broker_map == old(self).broker_map,
                self.next_order_id == old(self).next_order_id,
            decreases n - i,
        {
            let st = self.orders[i].status;
            let upd = self.orders[i].updated_at;
            let ghost t = s.take(i + 1);
            assert(t.drop_last() =~= s.take(i as int));
            assert(t.last() == s[i as int]);
            if (st == OrderStatus::PendingCancel || st == OrderStatus::CancelSent) && now_us > upd
                && now_us - upd > cancel_timeout_us {
                assert(p(s[i as int]));
                self.orders[i].status = OrderStatus::CancelTimeout;
                out.push(self.orders[i].order_id);
                assert(self.orders@[i as int] == g(s[i as int]));
            } else {
                assert(!p(s[i as int]));
                assert(self.orders@[i as int] == g(s[i as int]));
            }
            i = i + 1;
        }
        assert(s.take(n as int) =~= s);
        assert(self.orders@ =~= s.map_values(g));
        out
    }

    fn sync_refresh(&mut self, internal: u64, bo: &Order)
        requires
            old(self).wf(),
        ensures
            final(self).wf(),
            final(self).orders@ == update_order(old(self).orders@, internal, |o: Order| sync_refresh_step(o, *bo)),
            final(self).idempotency_cache == old(self).idempotency_cache,
            final(self).broker_map == old(self).broker_map,
            final(self).next_id() == old(self).next_id(),
    {
        let ghost s = self.orders@;
        match self.find_index(internal) {
            Some(i) => {
                self.orders[i].status = bo.status;
                self.orders[i].filled_qty = bo.filled_qty;
                self.orders[i].avg_fill_price = bo.avg_fill_price;
                assert(self.orders@ =~= s.update(i as int, sync_refresh_step(s[i as int], *bo)));
                proof {
                    lemma_update_at(s, i as int, |o: Order| sync_refresh_step(o, *bo), self.orders@);
                }
            }
            None => {
                assert(update_order(s, internal, |o: Order| sync_refresh_step(o, *bo)) =~= s);
            }
        }
    }

    fn sync_link(&mut self, internal: u64, bo: &Order, b: &String)
        requires
            old(self).wf(),
        ensures
            final(self).wf(),
            has_order(old(self).orders@, internal) ==> {
                &&& final(self).orders@ == update_order(old(self).orders@, internal,
                    |o: Order| sync_link_step(o, *bo, *b))
                &&& final(self).broker_map@ == old(self).broker_map@.insert(b@, internal)
            },
            !has_order(old(self).orders@, internal) ==> {
                &&& final(self).orders@ == old(self).orders@
                &&& final(self).broker_map@ == old(self).broker_map@
            },
            final(self).idempotency_cache == old(self).idempotency_cache,
            final(self).next_id() == old(self).next_id(),
    {
        let ghost s = self.orders@;
        match self.find_index(internal) {
            Some(i) => {
                proof { lemma_order_at(s, i as int); }
                self.orders[i].broker_order_id = Some(b.clone());
                self.orders[i].status = bo.status;
                self.orders[i].filled_qty = bo.filled_qty;
                self.orders[i].avg_fill_price = bo.avg_fill_price;
                assert(self.orders@ =~= s.update(i as int, sync_link_step(s[i as int], *bo, *b)));
                proof {
                    lemma_update_at(s, i as int, |o: Order| sync_link_step(o, *bo, *b), self.orders@);
                }
                self.broker_map.insert(b.clone(), internal);
            }
            None => {}
        }
    }

    fn sync_import(&mut self, bo: &Order, b: &String)
        requires
            old(self).wf(),
            old(self).next_id() < u64::MAX,
            key_fits(bo.client_order_id@),
        ensures
            final(self).wf(),
            final(self).orders@ == old(self).orders@.push(Order { order_id: old(self).next_id(), ..*bo }),
            final(self).broker_map@ == old(self).broker_map@.insert(b@, old(self).next_id()),
            final(self).idempotency_cache@ == (if bo.client_order_id@.len() > 0 {
                old(self).idempotency_cache@.insert(bo.client_order_id@, old(self).next_id())
            } else {
                old(self).idempotency_cache@
            }),
            final(self).next_id() == old(self).next_id() + 1,
    {
        let nid = self.next_order_id;
        self.next_order_id = self.next_order_id + 1;
        let mut imported = bo.duplicate();
        imported.order_id = nid;
        self.orders.push(imported);
        self.broker_map.insert(b.clone(), nid);
        if !bo.client_order_id.as_str().is_empty() {
            self.idempotency_cache.insert(bo.client_order_id.clone(), nid);
        }
    }

    fn sync_one(&mut self, bo: &Order, seen: &mut Vec<String>)
        requires
            old(self).wf(),
            old(self).next_id() < u64::MAX,
            key_fits(bo.client_order_id@),
        ensures
            final(self).wf(),
            final(self).model(texts(final(seen)@)) == sync_apply(old(self).model(texts(old(seen)@)), *bo),
            final(self).next_id() <= old(self).next_id() + 1,
    {
        let ghost m = self.model(texts(seen@));
        match &bo.broker_order_id {
            None => {}
            Some(b) => {
                seen.push(b.clone());
                assert(texts(seen@) =~= m.seen.push(b@));
                match self.broker_map.get(b) {
                    Some(internal) => {
                        self.sync_refresh(internal, bo);
                    }
                    None => {
                        match self.idempotency_cache.get(&bo.client_order_id) {
                            Some(internal) => {
                                self.sync_link(internal, bo, b);
                            }
                            None => {
                                self.sync_import(bo, b);
                            }
                        }
                    }
                }
            }
        }
    }

    /// Reconciles local state with broker truth after a reconnect.
    ///
    /// Each open order the broker reports is matched by broker id, then by
    /// client id, and otherwise imported under a fresh id. Afterwards every
    /// working order the broker did not report is cancelled locally; their ids
    /// are returned in order.
    pub fn reconcile_state(&mut self, sync_data: StateSyncData) -> (r: Vec<u64>)
        requires
            old(self).wf(),
            old(self).next_id() + sync_data.open_orders@.len() < u64::MAX,
            client_ids_fit(sync_data.open_orders@),
        ensures
            final(self).wf(),
            ({
                let m = sync_all(old(self).model(Seq::empty()), sync_data.open_orders@);
                &&& final(self).model(m.seen) == reconciled(old(self).model(Seq::empty()), sync_data.open_orders@)
                &&& r@ == ids_where(m.orders, |o: Order| is_stale(o, m.seen))
            }),
    {
        let ghost m0 = self.model(Seq::empty());
        let ghost open = sync_data.open_orders@;
        let mut seen: Vec<String> = Vec::new();
        assert(texts(seen@) =~= Seq::<Seq<char>>::empty());
        let n = sync_data.open_orders.len();
        let mut k: usize = 0;
        while k < n
            invariant
                n == open.len(),
                open == sync_data.open_orders@,
                k <= n,
                self.wf(),
                self.next_id() <= m0.next_id + k,
                m0.next_id + n < u64::MAX,
                client_ids_fit(open),
                self.model(texts(seen@)) == sync_all(m0, open.take(k as int)),
            decreases n - k,
        {
            let ghost before = self.model(texts(seen@));
            self.sync_one(&sync_data.open_orders[k], &mut seen);
            assert(open.take(k + 1).drop_last() =~= open.take(k as int));
            assert(open.take(k + 1).last() == open[k as int]);
            k = k + 1;
        }
        assert(open.take(n as int) =~= open);
        let ghost m = self.model(texts(seen@));
        let ghost s = self.orders@;
        let ghost p = |o: Order| is_stale(o, m.seen);
        let ghost g = |o: Order| stale_step(o, m.seen);
        let mut out: Vec<u64> = Vec::new();
        let len = self.orders.len();
        let mut i: usize = 0;
        while i < len
            invariant
                len == self.orders@.len(),
                len == s.len(),
                i <= len,
                m.seen == texts(seen@),
                m.orders == s,
                unique_ids(s),
                out@ == ids_where(s.take(i as int), p),
                p == (|o: Order| is_stale(o, m.seen)),
                g == (|o: Order| stale_step(o, m.seen)),
                forall|j: int| 0 <= j < i ==> self.orders@[j] == g(s[j]),
                forall|j: int| i <= j < len ==> self.orders@[j] == s[j],
                self.idempotency_cache@ == m.cache,
                self.broker_map@ == m.broker,
                self.next_order_id == m.next_id,
                self.idempotency_cache.wf(),
                self.broker_map.wf(),
                keys_fit(self.idempotency_cache@),
                self.next_order_id >= 1,
                forall|j: int| 0 <= j < len ==> s[j].order_id < self.next_order_id,
            decreases len - i,
        {
            let st = self.orders[i].status;
            let stale = match &self.orders[i].broker_order_id {
                Some(b) => !contains_text(&seen, b),
                None => true,
            };
            let ghost t = s.take(i + 1);
            assert(t.drop_last() =~= s.take(i as int));
            assert(t.last() == s[i as int]);
            if (st == OrderStatus::Pending || st == OrderStatus::Live) && stale {
                assert(p(s[i as int]));
                self.orders[i].status = OrderStatus::Cancelled;
                out.push(self.orders[i].order_id);
                assert(self.orders@[i as int] == g(s[i as int]));
            } else {
                assert(!p(s[i as int]));
                assert(self.orders@[i as int] == g(s[i as int]));
            }
            i = i + 1;
        }
        assert(s.take(len as int) =~= s);
        assert(self.orders@ =~= s.map_values(g));
        out
    }
}

/// With distinct ids, the order at `i` is the order carrying its id.
proof fn lemma_order_at(s: Seq<Order>, i: int)
    requires
        unique_ids(s),
        0 <= i < s.len(),
    ensures
        has_order(s, s[i].order_id),
        order_in(s, s[i].order_id) == s[i],
{
    let id = s[i].order_id;
    assert(has_order(s, id));
    let j = choose|j: int| 0 <= j < s.len() && s[j].order_id == id;
    assert(j == i);
}

/// Replacing the order at `i` by `f` of it is `update_order` for its id.
proof fn lemma_update_at(s: Seq<Order>, i: int, f: spec_fn(Order) -> Order, t: Seq<Order>)
    requires
        unique_ids(s),
        0 <= i < s.len(),
        t == s.update(i, f(s[i])),
    ensures
        t == update_order(s, s[i].order_id, f),
{
    assert(t =~= update_order(s, s[i].order_id, f));
}


/// Placing two requests with the same idempotency key yields the same order id,
/// and the second placement changes nothing.
pub proof fn law_place_idempotent(
    a: OrderManagementSystem,
    b: OrderManagementSystem,
    c: OrderManagementSystem,
    req1: OrderRequest,
    req2: OrderRequest,
    t1: u64,
    t2: u64,
    r1: Result<u64, &'static str>,
    r2: Result<u64, &'static str>,
)
    requires
        placed(a, req1, t1, b, r1),
        placed(b, req2, t2, c, r2),
        req1.idempotency_key@ == req2.idempotency_key@,
    ensures
        r1 == r2,
        c == b,
{
}

/// A second cancel of the same order is acknowledged with `Ok(false)` and
/// changes nothing: a newly cancelled order stays `PendingCancel`.
pub proof fn law_cancel_idempotent(s: Seq<Order>, id: u64, t1: u64, t2: u64)
    requires
        unique_ids(s),
        cancel_result(s, id) is Ok,
    ensures
        ({
            let s1 = update_order(s, id, |o: Order| cancel_step(o, t1));
            &&& cancel_result(s1, id) == Ok::<bool, &'static str>(false)
            &&& update_order(s1, id, |o: Order| cancel_step(o, t2)) == s1
        }),
{
    let s1 = update_order(s, id, |o: Order| cancel_step(o, t1));
    let i = choose|i: int| 0 <= i < s.len() && s[i].order_id == id;
    lemma_order_at(s, i);
    assert(s1[i] == cancel_step(s[i], t1));
    assert(unique_ids(s1));
    lemma_order_at(s1, i);
    assert(update_order(s1, id, |o: Order| cancel_step(o, t2)) =~= s1);
}

/// A cancel request on a filled, cancelled, rejected, cancel-rejected or
/// cancel-timed-out order is refused and changes nothing.
pub proof fn law_terminal_refuses_cancel(s: Seq<Order>, i: int, t: u64)
    requires
        unique_ids(s),
        0 <= i < s.len(),
        is_cancel_terminal(s[i].status),
    ensures
        cancel_result(s, s[i].order_id) == Err::<bool, &'static str>("Order in terminal state, cannot cancel"),
        update_order(s, s[i].order_id, |o: Order| cancel_step(o, t)) == s,
{
    lemma_order_at(s, i);
    assert(update_order(s, s[i].order_id, |o: Order| cancel_step(o, t)) =~= s);
}

/// A working order that is cancelled, dispatched and acknowledged ends
/// `Cancelled`; a late acknowledgement after a cancel timeout does too.
pub proof fn law_cancel_flow_terminates(o: Order, t1: u64, t2: u64, t3: u64)
    ensures
        is_working(o.status) ==>
            cancel_ack_step(cancel_sent_step(cancel_step(o, t1), t2), t3).status == OrderStatus::Cancelled,
        o.status == OrderStatus::CancelTimeout ==> cancel_ack_step(o, t3).status == OrderStatus::Cancelled,
        is_cancelling(o.status) ==> cancel_reject_step(o, t3).status == OrderStatus::CancelRejected,
{
}

/// A cancel that times out is escalated and never silently dropped: after the
/// timeout check an in-flight cancel is either still in flight or `CancelTimeout`.
pub proof fn law_cancel_timeout_escalates(o: Order, now: u64, timeout: u64)
    requires
        is_cancelling(o.status),
    ensures
        is_cancelling(cancel_timeout_step(o, now, timeout).status)
            || cancel_timeout_step(o, now, timeout).status == OrderStatus::CancelTimeout,
        is_cancel_timed_out(o, now, timeout) ==> cancel_timeout_step(o, now, timeout).status
            == OrderStatus::CancelTimeout,
{
}

/// A fill that brings the filled quantity to the order quantity fills the order.
pub proof fn law_fill_completes(o: Order, size: u32, avg: OrdKey, ts: u64)
    requires
        o.filled_qty + size <= u32::MAX,
        o.filled_qty + size >= o.qty,
    ensures
        fill_step(o, size, avg, ts).status == OrderStatus::Filled,
        fill_step(o, size, avg, ts).filled_qty == o.filled_qty + size,
{
}

/// After reconciliation no order is left working unless the broker reported it
/// open under its broker id.
pub proof fn law_reconcile_no_unreported_working(m0: SyncModel, open: Seq<Order>, j: int)
    requires
        0 <= j < reconciled(m0, open).orders.len(),
        is_working(reconciled(m0, open).orders[j].status),
    ensures
        ({
            let o = reconciled(m0, open).orders[j];
            let seen = sync_all(m0, open).seen;
            o.broker_order_id matches Some(b) && seen.contains(b@)
        }),
{
    let m = sync_all(m0, open);
    assert(reconciled(m0, open).orders[j] == stale_step(m.orders[j], m.seen));
}

/// The idempotency cache only ever holds keys of at most 64 bytes.
pub proof fn law_cache_keys_fit(oms: OrderManagementSystem, k: Seq<char>)
    requires
        oms.wf(),
        oms.idempotency_cache@.contains_key(k),
    ensures
        key_fits(k),
{
}

/// Changing the order carrying `id` (and keeping its id) changes exactly that
/// order: it is still there, and it is what `f` made of it.
proof fn lemma_order_in_update(s: Seq<Order>, id: u64, f: spec_fn(Order) -> Order)
    requires
        unique_ids(s),
        has_order(s, id),
        f(order_in(s, id)).order_id == id,
    ensures
        has_order(update_order(s, id, f), id),
        order_in(update_order(s, id, f), id) == f(order_in(s, id)),
{
    let t = update_order(s, id, f);
    let i = choose|i: int| 0 <= i < s.len() && s[i].order_id == id;
    assert(t[i] == f(s[i]));
    assert(order_in(s, id) == s[i]) by {
        lemma_order_at(s, i);
    }
    assert(has_order(t, id));
    let j = choose|j: int| 0 <= j < t.len() && t[j].order_id == id;
    if s[j].order_id != id {
        assert(t[j] == s[j]);
    }
    assert(j == i);
}

/// Mapping every order through `g`, which keeps ids, maps the order carrying
/// `id` through `g`.
proof fn lemma_order_in_map(s: Seq<Order>, id: u64, g: spec_fn(Order) -> Order)
    requires
        unique_ids(s),
        has_order(s, id),
        forall|o: Order| #[trigger] g(o).order_id == o.order_id,
    ensures
        has_order(s.map_values(g), id),
        order_in(s.map_values(g), id) == g(order_in(s, id)),
{
    let t = s.map_values(g);
    let i = choose|i: int| 0 <= i < s.len() && s[i].order_id == id;
    lemma_order_at(s, i);
    assert(t[i] == g(s[i]));
    assert(has_order(t, id));
    let j = choose|j: int| 0 <= j < t.len() && t[j].order_id == id;
    assert(t[j] == g(s[j]));
    assert(j == i);
}

/// A status report for a known order sets its status and filled quantity to
/// the reported ones, takes a positive reported average price, and leaves its
/// quantity and identity alone.
pub proof fn law_status_report_sets_state(s: Seq<Order>, d: OrderStatusData, ts: u64)
    requires
        unique_ids(s),
        has_order(s, d.order_id),
    ensures
        ({
            let t = update_order(s, d.order_id, |o: Order| status_step(o, d, ts));
            let before = order_in(s, d.order_id);
            let after = order_in(t, d.order_id);
            &&& has_order(t, d.order_id)
            &&& after.status == d.status
            &&& after.filled_qty == d.filled_qty
            &&& key_lt(OrdKey(KEY_ZERO), d.avg_fill_price) ==> after.avg_fill_price == d.avg_fill_price
            &&& !key_lt(OrdKey(KEY_ZERO), d.avg_fill_price) ==> after.avg_fill_price == before.avg_fill_price
            &&& after.qty == before.qty
            &&& after.client_order_id == before.client_order_id
            &&& after.broker_order_id == before.broker_order_id
            &&& after.updated_at == ts
        }),
{
    lemma_order_in_update(s, d.order_id, |o: Order| status_step(o, d, ts));
}

/// An open order the broker reports under a broker id already known locally
/// hands that local order the broker's status, filled quantity and average
/// fill price; its identity, quantity and client id stay.
pub proof fn law_sync_takes_broker_state(m: SyncModel, bo: Order)
    requires
        unique_ids(m.orders),
        bo.broker_order_id is Some,
        m.broker.contains_key(bo.broker_order_id->0@),
        has_order(m.orders, m.broker[bo.broker_order_id->0@]),
    ensures
        ({
            let id = m.broker[bo.broker_order_id->0@];
            let before = order_in(m.orders, id);
            let after = order_in(sync_apply(m, bo).orders, id);
            &&& has_order(sync_apply(m, bo).orders, id)
            &&& after.status == bo.status
            &&& after.filled_qty == bo.filled_qty
            &&& after.avg_fill_price == bo.avg_fill_price
            &&& after.order_id == id
            &&& after.qty == before.qty
            &&& after.client_order_id == before.client_order_id
            &&& after.broker_order_id == before.broker_order_id
        }),
{
    let b = bo.broker_order_id->0;
    let id = m.broker[b@];
    lemma_order_in_update(m.orders, id, |o: Order| sync_refresh_step(o, bo));
}

/// An open order the broker reports under a new broker id but with the client
/// id of a local order links that order to the broker id and hands it the
/// broker's status, filled quantity and average fill price.
pub proof fn law_sync_links_by_client_id(m: SyncModel, bo: Order)
    requires
        unique_ids(m.orders),
        bo.broker_order_id is Some,
        !m.broker.contains_key(bo.broker_order_id->0@),
        m.cache.contains_key(bo.client_order_id@),
        has_order(m.orders, m.cache[bo.client_order_id@]),
    ensures
        ({
            let id = m.cache[bo.client_order_id@];
            let after = order_in(sync_apply(m, bo).orders, id);
            &&& has_order(sync_apply(m, bo).orders, id)
            &&& after.broker_order_id == bo.broker_order_id
            &&& after.status == bo.status
            &&& after.filled_qty == bo.filled_qty
            &&& after.avg_fill_price == bo.avg_fill_price
            &&& sync_apply(m, bo).broker == m.broker.insert(bo.broker_order_id->0@, id)
        }),
{
    let b = bo.broker_order_id->0;
    let id = m.cache[bo.client_order_id@];
    lemma_order_in_update(m.orders, id, |o: Order| sync_link_step(o, bo, b));
}

/// After reconciling with a broker that reports one open order, under the
/// broker id of a local order, that order carries the broker's status, filled
/// quantity and average fill price: it is not cancelled as stale.
pub proof fn law_reconcile_takes_broker_state(m0: SyncModel, bo: Order)
    requires
        unique_ids(m0.orders),
        bo.broker_order_id is Some,
        m0.broker.contains_key(bo.broker_order_id->0@),
        has_order(m0.orders, m0.broker[bo.broker_order_id->0@]),
        order_in(m0.orders, m0.broker[bo.broker_order_id->0@]).broker_order_id == bo.broker_order_id,
    ensures
        ({
            let id = m0.broker[bo.broker_order_id->0@];
            let after = order_in(reconciled(m0, seq![bo]).orders, id);
            &&& has_order(reconciled(m0, seq![bo]).orders, id)
            &&& after.status == bo.status
            &&& after.filled_qty == bo.filled_qty
            &&& after.avg_fill_price == bo.avg_fill_price
        }),
{
    let b = bo.broker_order_id->0;
    let id = m0.broker[b@];
    let one = seq![bo];
    assert(one.drop_last() =~= Seq::<Order>::empty());
    assert(one.last() == bo);
    assert(sync_all(m0, Seq::<Order>::empty()) == m0);
    let m = sync_all(m0, one);
    assert(m == sync_apply(m0, bo));
    law_sync_takes_broker_state(m0, bo);
    let s = m.orders;
    lemma_order_in_update(m0.orders, id, |o: Order| sync_refresh_step(o, bo));
    assert(unique_ids(s)) by {
        assert forall|i: int, j: int| 0 <= i < j < s.len() implies s[i].order_id != s[j].order_id by {
            assert(s[i].order_id == m0.orders[i].order_id);
            assert(s[j].order_id == m0.orders[j].order_id);
        }
    }
    let g = |o: Order| stale_step(o, m.seen);
    lemma_order_in_map(s, id, g);
    assert(m.seen.contains(b@)) by {
        assert(m.seen == m0.seen.push(b@));
        assert(m.seen[m.seen.len() - 1] == b@);
    }
    assert(reconciled(m0, one).orders == s.map_values(g));
}

/// What each single step does to one order: a placed order starts pending
/// with nothing filled under its key; an acknowledgement records the broker id
/// and makes a pending order live; a fill adds its size, keeps a positive
/// average and fills the order once the quantity is reached; a cancel request
/// moves only a working order to pending-cancel; a dispatched cancel moves
/// only a pending cancel on.
pub proof fn law_order_steps(o: Order, req: OrderRequest, id: u64, b: String, size: u32, avg: OrdKey, ts: u64)
    ensures
        order_from_request(req, id, ts).status == OrderStatus::Pending,
        order_from_request(req, id, ts).filled_qty == 0,
        order_from_request(req, id, ts).qty == req.qty,
        order_from_request(req, id, ts).order_id == id,
        order_from_request(req, id, ts).client_order_id == req.idempotency_key,
        order_from_request(req, id, ts).broker_order_id is None,
        ack_step(o, b).broker_order_id == Some(b),
        o.status == OrderStatus::Pending ==> ack_step(o, b).status == OrderStatus::Live,
        o.status != OrderStatus::Pending ==> ack_step(o, b).status == o.status,
        ack_step(o, b).filled_qty == o.filled_qty,
        o.filled_qty + size <= u32::MAX ==> fill_step(o, size, avg, ts).filled_qty == o.filled_qty + size,
        o.filled_qty + size <= u32::MAX && o.filled_qty + size < o.qty ==> fill_step(o, size, avg, ts).status
            == OrderStatus::Live,
        o.filled_qty + size <= u32::MAX && o.filled_qty + size > 0 ==> fill_step(o, size, avg, ts).avg_fill_price
            == avg,
        fill_step(o, size, avg, ts).qty == o.qty,
        is_working(o.status) ==> cancel_step(o, ts).status == OrderStatus::PendingCancel,
        !is_working(o.status) ==> cancel_step(o, ts) == o,
        o.status == OrderStatus::PendingCancel ==> cancel_sent_step(o, ts).status == OrderStatus::CancelSent,
        o.status != OrderStatus::PendingCancel ==> cancel_sent_step(o, ts) == o,
        cancel_step(o, ts).filled_qty == o.filled_qty,
{
}

} // verus!
