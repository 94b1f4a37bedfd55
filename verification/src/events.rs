//! Market and order events as they cross the bridge: their payloads, their
//! admission check, their quality-of-service priority and where the router
//! sends each kind.
use vstd::prelude::*;
use crate::types::{
    key_lt, FillData, OrdKey, OrderStatusData, RejectData, Side, StateSyncData, SymbolId, KEY_ZERO,
};

verus! {

/// A trade print.
#[derive(Debug, Clone, Copy)]
pub struct TickData {
    pub price: OrdKey,
    pub size: u32,
    pub flags: u8,
}

/// A change of one order-book level.
#[derive(Debug, Clone, Copy)]
pub struct L2DeltaData {
    pub price: OrdKey,
    pub size: u32,
    pub side: Side,
    pub level: u8,
    pub is_delete: bool,
}

/// A quote and volume snapshot.
#[derive(Debug, Clone, Copy)]
pub struct SnapshotData {
    pub bid_price: OrdKey,
    pub ask_price: OrdKey,
    pub bid_size: u32,
    pub ask_size: u32,
    pub volume: u64,
    pub avg_volume_20d: u64,
    pub has_news_today: bool,
}

/// Payload of an event.
#[derive(Debug)]
pub enum EventKind {
    Tick(TickData),
    L2Delta(L2DeltaData),
    Snapshot(SnapshotData),
    Fill(FillData),
    OrderStatus(OrderStatusData),
    Reject(RejectData),
    Heartbeat,
    Reconnect,
    StateSync(StateSyncData),
    Halt,
}

/// An event with its timestamps (microseconds).
#[derive(Debug)]
pub struct Event {
    /// Exchange time.
    pub ts_src: u64,
    /// Time the bridge packet arrived.
    pub ts_rx: u64,
    /// Time processing started.
    pub ts_proc: u64,
    /// Sequence number per symbol.
    pub seq: u64,
    pub symbol_id: SymbolId,
    pub kind: EventKind,
}

/// Two events that carry the same values (their order lists element by element).
pub open spec fn same_event(a: Event, b: Event) -> bool {
    &&& a.ts_src == b.ts_src
    &&& a.ts_rx == b.ts_rx
    &&& a.ts_proc == b.ts_proc
    &&& a.seq == b.seq
    &&& a.symbol_id == b.symbol_id
    &&& match (a.kind, b.kind) {
        (EventKind::StateSync(x), EventKind::StateSync(y)) => x.open_orders@ == y.open_orders@ && x.positions@
            == y.positions@,
        (EventKind::StateSync(_), _) => false,
        (_, EventKind::StateSync(_)) => false,
        (x, y) => x == y,
    }
}

impl Event {
    /// A copy of the event, for fanning it out to several tasks.
    pub fn duplicate(&self) -> (r: Event)
        ensures
            same_event(r, *self),
    {
        let kind = match &self.kind {
            EventKind::Tick(t) => EventKind::Tick(*t),
            EventKind::L2Delta(l) => EventKind::L2Delta(*l),
            EventKind::Snapshot(s) => EventKind::Snapshot(*s),
            EventKind::Fill(f) => EventKind::Fill(*f),
            EventKind::OrderStatus(o) => EventKind::OrderStatus(*o),
            EventKind::Reject(r) => EventKind::Reject(*r),
            EventKind::Heartbeat => EventKind::Heartbeat,
            EventKind::Reconnect => EventKind::Reconnect,
            EventKind::StateSync(s) => EventKind::StateSync(s.duplicate()),
            EventKind::Halt => EventKind::Halt,
        };
        Event {
            ts_src: self.ts_src,
            ts_rx: self.ts_rx,
            ts_proc: self.ts_proc,
            seq: self.seq,
            symbol_id: self.symbol_id,
            kind,
        }
    }
}

/// Drop priority of an event when the bus is full.
#[derive(Debug, Clone, Copy, PartialEq, Eq, Structural)]
pub enum QosPriority {
    /// Fills, order updates, rejects and control events: never dropped.
    Critical,
    /// Ticks.
    High,
    /// Order-book deltas.
    Medium,
    /// Snapshots and heartbeats.
    Low,
}

/// The priority of each event kind.
pub open spec fn priority_of(kind: EventKind) -> QosPriority {
    match kind {
        EventKind::Fill(_) | EventKind::OrderStatus(_) | EventKind::Reject(_) => QosPriority::Critical,
        EventKind::Tick(_) => QosPriority::High,
        EventKind::L2Delta(_) => QosPriority::Medium,
        EventKind::Snapshot(_) | EventKind::Heartbeat => QosPriority::Low,
        EventKind::Reconnect | EventKind::StateSync(_) | EventKind::Halt => QosPriority::Critical,
    }
}

impl QosPriority {
    /// The priority of an event.
    pub fn from_event(event: &Event) -> (p: Self)
        ensures
            p == priority_of(event.kind),
    {
        match event.kind {
            EventKind::Fill(_) | EventKind::OrderStatus(_) | EventKind::Reject(_) => QosPriority::Critical,
            EventKind::Tick(_) => QosPriority::High,
            EventKind::L2Delta(_) => QosPriority::Medium,
            EventKind::Snapshot(_) => QosPriority::Low,
            EventKind::Heartbeat => QosPriority::Low,
            EventKind::Reconnect => QosPriority::Critical,
            EventKind::StateSync(_) => QosPriority::Critical,
            EventKind::Halt => QosPriority::Critical,
        }
    }
}

/// What to do with an event that meets a full bus.
#[derive(Debug, Clone, Copy, PartialEq, Eq, Structural)]
pub enum FullBusAction {
    /// Wait for room, pushing back on the socket.
    Wait,
    /// Drop the event.
    Drop,
}

/// Critical events wait for room; all others are dropped.
pub open spec fn full_bus_action(priority: QosPriority) -> FullBusAction {
    if priority == QosPriority::Critical {
        FullBusAction::Wait
    } else {
        FullBusAction::Drop
    }
}

/// The action for an event of the given priority that meets a full bus.
pub fn on_full_bus(priority: QosPriority) -> (a: FullBusAction)
    ensures
        a == full_bus_action(priority),
{
    match priority {
        QosPriority::Critical => FullBusAction::Wait,
        _ => FullBusAction::Drop,
    }
}

/// Key of 100 000.0, the price ceiling of the admission check.
pub const KEY_PRICE_CEILING: u64 = 0xC0F8_6A00_0000_0000u64;

/// How far ahead of the local clock an event may be stamped, in microseconds.
pub const MAX_CLOCK_LEAD_MICROS: u64 = 5_000_000;

/// Age past which an event is stale, in microseconds.
pub const MAX_EVENT_AGE_MICROS: u64 = 5_000_000;

/// A price admitted by the check: above zero and below 100 000.
pub open spec fn sane_price(p: OrdKey) -> bool {
    key_lt(OrdKey(KEY_ZERO), p) && key_lt(p, OrdKey(KEY_PRICE_CEILING))
}

/// Whether an event is admitted at local time `now_us`.
pub open spec fn event_valid(e: Event, now_us: u64) -> bool {
    &&& e.ts_src != 0
    &&& e.symbol_id.0 > 0
    &&& e.ts_src <= now_us + MAX_CLOCK_LEAD_MICROS
    &&& now_us <= e.ts_src + MAX_EVENT_AGE_MICROS
    &&& match e.kind {
        EventKind::Tick(t) => sane_price(t.price) && t.size != 0,
        EventKind::Fill(f) => sane_price(f.price) && f.size != 0,
        EventKind::L2Delta(l) => key_lt(OrdKey(KEY_ZERO), l.price),
        EventKind::Snapshot(s) => key_lt(OrdKey(KEY_ZERO), s.bid_price) && key_lt(s.bid_price, s.ask_price),
        _ => true,
    }
}

fn price_sane(p: OrdKey) -> (b: bool)
    ensures
        b == sane_price(p),
{
    p.gt(OrdKey::zero()) && p.lt(OrdKey(KEY_PRICE_CEILING))
}

/// Admission check of an incoming event at local time `now_us`: stamped,
/// with a symbol id above zero, neither from the future nor older than five
/// seconds, and with sane prices and sizes.
pub fn validate_event(event: &Event, now_us: u64) -> (b: bool)
    ensures
        b == event_valid(*event, now_us),
{
    if event.ts_src == 0 {
        return false;
    }
    if event.symbol_id.0 == 0 {
        return false;
    }
    if event.ts_src > MAX_CLOCK_LEAD_MICROS && event.ts_src - MAX_CLOCK_LEAD_MICROS > now_us {
        return false;
    }
    if now_us > MAX_EVENT_AGE_MICROS && now_us - MAX_EVENT_AGE_MICROS > event.ts_src {
        return false;
    }
    match &event.kind {
        EventKind::Tick(tick) => price_sane(tick.price) && tick.size != 0,
        EventKind::Fill(fill) => price_sane(fill.price) && fill.size != 0,
        EventKind::L2Delta(l2) => l2.price.gt(OrdKey::zero()),
        EventKind::Snapshot(snap) => snap.bid_price.gt(OrdKey::zero()) && snap.bid_price.lt(snap.ask_price),
        _ => true,
    }
}

/// Where the router sends an event.
#[derive(Debug, Clone, Copy, PartialEq, Eq, Structural)]
pub struct EventRoutes {
    pub metrics: bool,
    pub fast_loop: bool,
    pub slow_loop: bool,
    pub oms: bool,
    pub risk: bool,
}

/// The destinations of each event kind.
pub open spec fn routes_of(kind: EventKind) -> EventRoutes {
    match kind {
        EventKind::Tick(_) | EventKind::L2Delta(_) => EventRoutes {
            metrics: true,
            fast_loop: true,
            slow_loop: true,
            oms: false,
            risk: false,
        },
        EventKind::Snapshot(_) => EventRoutes { metrics: true, fast_loop: false, slow_loop: true, oms: false, risk: false },
        EventKind::Fill(_) => EventRoutes { metrics: true, fast_loop: true, slow_loop: false, oms: true, risk: true },
        EventKind::OrderStatus(_) | EventKind::Reject(_) => EventRoutes {
            metrics: true,
            fast_loop: false,
            slow_loop: false,
            oms: true,
            risk: true,
        },
        EventKind::Heartbeat => EventRoutes { metrics: true, fast_loop: false, slow_loop: false, oms: false, risk: true },
        EventKind::Halt | EventKind::Reconnect | EventKind::StateSync(_) => EventRoutes {
            metrics: true,
            fast_loop: true,
            slow_loop: false,
            oms: true,
            risk: true,
        },
    }
}

/// The destinations of an event: metrics always; market data to the two
/// decision loops; order events and control events to the OMS and risk.
pub fn route_event(kind: &EventKind) -> (r: EventRoutes)
    ensures
        r == routes_of(*kind),
{
    match kind {
        EventKind::Tick(_) | EventKind::L2Delta(_) => EventRoutes {
            metrics: true,
            fast_loop: true,
            slow_loop: true,
            oms: false,
            risk: false,
        },
        EventKind::Snapshot(_) => EventRoutes { metrics: true, fast_loop: false, slow_loop: true, oms: false, risk: false },
        EventKind::Fill(_) => EventRoutes { metrics: true, fast_loop: true, slow_loop: false, oms: true, risk: true },
        EventKind::OrderStatus(_) | EventKind::Reject(_) => EventRoutes {
            metrics: true,
            fast_loop: false,
            slow_loop: false,
            oms: true,
            risk: true,
        },
        EventKind::Heartbeat => EventRoutes { metrics: true, fast_loop: false, slow_loop: false, oms: false, risk: true },
        EventKind::Halt | EventKind::Reconnect | EventKind::StateSync(_) => EventRoutes {
            metrics: true,
            fast_loop: true,
            slow_loop: false,
            oms: true,
            risk: true,
        },
    }
}

/// Every event reaches the metrics task; every critical event reaches the
/// OMS and the risk task and, on a full bus, is waited for, never dropped.
pub proof fn law_critical_events_delivered(kind: EventKind)
    ensures
        routes_of(kind).metrics,
        priority_of(kind) == QosPriority::Critical ==> routes_of(kind).oms && routes_of(kind).risk,
        priority_of(kind) == QosPriority::Critical ==> full_bus_action(priority_of(kind)) == FullBusAction::Wait,
{
}

/// Heartbeat supervision: the feed is degraded once heartbeats stop for
/// longer than the timeout, and restored by the next heartbeat.
#[derive(Debug, Clone, Copy)]
pub struct HeartbeatMonitor {
    pub is_degraded: bool,
}

impl HeartbeatMonitor {
    pub fn new() -> (m: Self)
        ensures
            !m.is_degraded,
    {
        HeartbeatMonitor { is_degraded: false }
    }

    /// A heartbeat arrived; true when it ends a degraded period.
    pub fn on_heartbeat(&mut self) -> (restored: bool)
        ensures
            restored == old(self).is_degraded,
            !final(self).is_degraded,
    {
        let restored = self.is_degraded;
        self.is_degraded = false;
        restored
    }

    /// A periodic check; `silent_too_long` tells whether the last heartbeat is
    /// older than the timeout. True when the feed becomes degraded now.
    pub fn check(&mut self, silent_too_long: bool) -> (degraded_now: bool)
        ensures
            degraded_now == (silent_too_long && !old(self).is_degraded),
            final(self).is_degraded == (old(self).is_degraded || silent_too_long),
    {
        if silent_too_long && !self.is_degraded {
            self.is_degraded = true;
            return true;
        }
        false
    }
}

} // verus!
