use penny_scalper::control::{
    close_all_orders, make_order_key, push_decimal, BudgetVerdict, DegradedLatch, MonitorOnlyChange,
    SubscriptionBudget,
};
use penny_scalper::events::{Event, EventKind, TickData};
use penny_scalper::metrics::DecisionAction;
use penny_scalper::oms::OrderManagementSystem;
use penny_scalper::types::{
    OrdKey, Order, OrderStatus, OrderType, PositionData, Side, StateSyncData, SymbolId, TimeInForce,
};

fn k(x: f64) -> OrdKey {
    OrdKey::from_bits(x.to_bits())
}

#[test]
fn decimal_digits_are_written_most_significant_first() {
    let mut s = String::from("x");
    push_decimal(&mut s, 0);
    assert_eq!(s, "x0");
    let mut t = String::new();
    push_decimal(&mut t, 1_700_000_000_123_456);
    assert_eq!(t, "1700000000123456");
    let mut u = String::new();
    push_decimal(&mut u, u64::MAX);
    assert_eq!(u, u64::MAX.to_string());
}

#[test]
fn order_keys_carry_prefix_symbol_and_time() {
    assert_eq!(make_order_key("", SymbolId(42), 1_000), "42-1000");
    assert_eq!(make_order_key("CLOSE-ALL-", SymbolId(7), 99), "CLOSE-ALL-7-99");
    assert_eq!(make_order_key("EMERGENCY-EXIT-", SymbolId(0), 0), "EMERGENCY-EXIT-0-0");
}

#[test]
fn close_all_flattens_each_open_position() {
    let positions = vec![(SymbolId(1), 300), (SymbolId(2), 0), (SymbolId(3), -50), (SymbolId(4), i32::MIN)];
    let orders = close_all_orders(&positions, 5_000);
    assert_eq!(orders.len(), 3);
    assert_eq!(orders[0].symbol_id, SymbolId(1));
    assert_eq!(orders[0].side, Side::Ask);
    assert_eq!(orders[0].qty, 300);
    assert_eq!(orders[0].order_type, OrderType::Market);
    assert_eq!(orders[0].tif, TimeInForce::IOC);
    assert!(orders[0].limit_price.is_none() && orders[0].stop_loss_price.is_none());
    assert_eq!(orders[0].idempotency_key, "CLOSE-ALL-1-5000");
    assert_eq!(orders[1].symbol_id, SymbolId(3));
    assert_eq!(orders[1].side, Side::Bid);
    assert_eq!(orders[1].qty, 50);
    assert_eq!(orders[1].idempotency_key, "CLOSE-ALL-3-5000");
    assert_eq!(orders[2].qty, 2_147_483_648);
    assert_eq!(orders[2].side, Side::Bid);
}

#[test]
fn close_all_with_everything_flat_sends_nothing() {
    assert!(close_all_orders(&vec![(SymbolId(1), 0)], 1).is_empty());
    assert!(close_all_orders(&Vec::new(), 1).is_empty());
}

#[test]
fn subscription_budget_stops_promotions_at_its_limit() {
    let mut b = SubscriptionBudget::new(3, 2);
    assert_eq!(b.verdict(), BudgetVerdict::Open);
    assert!(b.record_promotion());
    assert_eq!(b.verdict(), BudgetVerdict::Open);
    assert!(b.record_promotion());
    assert_eq!(b.verdict(), BudgetVerdict::NearLimit);
    assert!(b.record_promotion());
    assert_eq!(b.verdict(), BudgetVerdict::Exhausted);
    assert!(!b.record_promotion());
    assert_eq!(b.count, 3);
}

#[test]
fn zero_budget_is_exhausted_at_once() {
    let b = SubscriptionBudget::new(0, 0);
    assert_eq!(b.verdict(), BudgetVerdict::Exhausted);
}

#[test]
fn restoration_lifts_only_a_degradation_monitor_only() {
    let mut latch = DegradedLatch::new();
    assert_eq!(latch.on_quality(false), MonitorOnlyChange::Keep);
    assert_eq!(latch.on_quality(true), MonitorOnlyChange::Enter);
    assert_eq!(latch.on_quality(true), MonitorOnlyChange::Enter);
    assert_eq!(latch.on_quality(false), MonitorOnlyChange::Exit);
    assert_eq!(latch.on_quality(false), MonitorOnlyChange::Keep);
}

#[test]
fn duplicated_events_carry_the_same_values() {
    let tick = Event {
        ts_src: 10,
        ts_rx: 11,
        ts_proc: 12,
        seq: 3,
        symbol_id: SymbolId(9),
        kind: EventKind::Tick(TickData { price: k(2.5), size: 100, flags: 1 }),
    };
    let copy = tick.duplicate();
    assert_eq!((copy.ts_src, copy.ts_rx, copy.ts_proc, copy.seq, copy.symbol_id), (10, 11, 12, 3, SymbolId(9)));
    match copy.kind {
        EventKind::Tick(t) => assert_eq!((t.price, t.size, t.flags), (k(2.5), 100, 1)),
        _ => panic!("expected a tick"),
    }
    let order = Order {
        order_id: 1,
        client_order_id: "c1".to_string(),
        broker_order_id: Some("b1".to_string()),
        symbol_id: SymbolId(9),
        side: Side::Bid,
        qty: 10,
        filled_qty: 0,
        avg_fill_price: k(0.0),
        order_type: OrderType::Limit,
        limit_price: Some(k(2.0)),
        stop_price: None,
        status: OrderStatus::Live,
        created_at: 1,
        updated_at: 1,
    };
    let sync = Event {
        ts_src: 1,
        ts_rx: 1,
        ts_proc: 1,
        seq: 0,
        symbol_id: SymbolId(0),
        kind: EventKind::StateSync(StateSyncData {
            open_orders: vec![order],
            positions: vec![PositionData { symbol_id: SymbolId(9), qty: 5, avg_cost: k(2.0) }],
        }),
    };
    match sync.duplicate().kind {
        EventKind::StateSync(s) => {
            assert_eq!(s.open_orders.len(), 1);
            assert_eq!(s.open_orders[0].client_order_id, "c1");
            assert_eq!(s.open_orders[0].broker_order_id.as_deref(), Some("b1"));
            assert_eq!(s.positions[0].qty, 5);
        }
        _ => panic!("expected a state sync"),
    }
}

#[test]
fn decision_actions_read_as_words() {
    assert_eq!(DecisionAction::Enter.text(), "Enter");
    assert_eq!(DecisionAction::Reject.text(), "Reject");
}

#[test]
fn default_order_manager_is_empty() {
    let oms = OrderManagementSystem::default();
    assert!(oms.orders.is_empty());
    assert_eq!(oms.next_order_id, 1);
}

#[test]
fn idempotency_keys_fit_in_sixty_four_bytes() {
    assert!(penny_scalper::types::fits_key(&"k".repeat(64)));
    assert!(!penny_scalper::types::fits_key(&"k".repeat(65)));
    // a two-byte character counts twice
    assert!(!penny_scalper::types::fits_key(&"é".repeat(33)));
    assert!(penny_scalper::types::fits_key(&make_order_key("EMERGENCY-EXIT-", SymbolId(u32::MAX), u64::MAX)));
}
