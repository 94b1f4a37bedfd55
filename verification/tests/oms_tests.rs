use penny_scalper::oms::OrderManagementSystem;
use penny_scalper::types::{
    FillData, Order, OrderRequest, OrderStatus, OrderStatusData, OrderType, OrdKey, PositionData, Side,
    StateSyncData, SymbolId, TimeInForce,
};

fn price(x: f64) -> OrdKey {
    OrdKey::from_bits(x.to_bits())
}

fn request(key: &str) -> OrderRequest {
    OrderRequest {
        symbol_id: SymbolId(1),
        side: Side::Bid,
        qty: 100,
        order_type: OrderType::Limit,
        limit_price: Some(price(10.0)),
        stop_price: None,
        tif: TimeInForce::GTC,
        idempotency_key: key.to_string(),
        take_profit_price: None,
        stop_loss_price: None,
    }
}

fn status_of(oms: &OrderManagementSystem, id: u64) -> OrderStatus {
    oms.get_order(id).unwrap().status
}

#[test]
fn test_place_order_idempotency() {
    let mut oms = OrderManagementSystem::new();
    let request = request("key1");

    let id1 = oms.place_order(request.clone(), 1000).unwrap();
    let id2 = oms.place_order(request, 2000).unwrap();

    assert_eq!(id1, id2);
    assert_eq!(oms.orders.len(), 1);
    assert_eq!(oms.get_order(id1).unwrap().created_at, 1000);
}

#[test]
fn test_handle_fill() {
    let mut oms = OrderManagementSystem::new();
    let id = oms.place_order(request("key1"), 1000).unwrap();

    let fill = FillData { order_id: id, price: price(10.0), size: 50, side: Side::Bid, liquidity: 0 };
    oms.handle_fill(fill, price(10.0), 1100);

    let order = oms.get_order(id).unwrap();
    assert_eq!(order.filled_qty, 50);
    assert_eq!(order.status, OrderStatus::Live);

    let fill2 = FillData { order_id: id, price: price(10.0), size: 50, side: Side::Bid, liquidity: 0 };
    oms.handle_fill(fill2, price(10.0), 1200);

    let order = oms.get_order(id).unwrap();
    assert_eq!(order.filled_qty, 100);
    assert_eq!(order.status, OrderStatus::Filled);
}

#[test]
fn test_cancel_flow_success() {
    let mut oms = OrderManagementSystem::new();
    let id = oms.place_order(request("key1"), 1000).unwrap();
    assert_eq!(status_of(&oms, id), OrderStatus::Pending);

    oms.cancel_order(id, 2000).unwrap();
    assert_eq!(status_of(&oms, id), OrderStatus::PendingCancel);

    oms.mark_cancel_sent(id, 2500);
    assert_eq!(status_of(&oms, id), OrderStatus::CancelSent);

    oms.handle_cancel_ack(id, 3000);
    assert_eq!(status_of(&oms, id), OrderStatus::Cancelled);
}

#[test]
fn test_cancel_flow_timeout() {
    let mut oms = OrderManagementSystem::new();
    let id = oms.place_order(request("key1"), 1000).unwrap();
    oms.cancel_order(id, 2000).unwrap();
    oms.mark_cancel_sent(id, 2500);

    let timeouts = oms.check_cancel_timeouts(3000, 5000);
    assert!(timeouts.is_empty());
    assert_eq!(status_of(&oms, id), OrderStatus::CancelSent);

    let timeouts = oms.check_cancel_timeouts(8000, 5000);
    assert_eq!(timeouts.len(), 1);
    assert_eq!(timeouts[0], id);
    assert_eq!(status_of(&oms, id), OrderStatus::CancelTimeout);
}

#[test]
fn test_cancel_flow_duplicate() {
    let mut oms = OrderManagementSystem::new();
    let id = oms.place_order(request("key1"), 1000).unwrap();
    assert!(oms.cancel_order(id, 2000).is_ok());
    assert_eq!(status_of(&oms, id), OrderStatus::PendingCancel);

    assert!(oms.cancel_order(id, 2500).is_ok());
    assert_eq!(status_of(&oms, id), OrderStatus::PendingCancel);

    oms.mark_cancel_sent(id, 3000);
    assert!(oms.cancel_order(id, 3500).is_ok());
    assert_eq!(status_of(&oms, id), OrderStatus::CancelSent);
}

#[test]
fn test_cancel_flow_late_ack() {
    let mut oms = OrderManagementSystem::new();
    let id = oms.place_order(request("key1"), 1000).unwrap();
    oms.cancel_order(id, 2000).unwrap();
    oms.mark_cancel_sent(id, 2500);

    let timeouts = oms.check_cancel_timeouts(8000, 5000);
    assert_eq!(timeouts.len(), 1);
    assert_eq!(status_of(&oms, id), OrderStatus::CancelTimeout);

    oms.handle_cancel_ack(id, 9000);
    assert_eq!(status_of(&oms, id), OrderStatus::Cancelled);
}

#[test]
fn test_cancel_flow_already_filled() {
    let mut oms = OrderManagementSystem::new();
    let id = oms.place_order(request("key1"), 1000).unwrap();
    oms.handle_fill(
        FillData { order_id: id, price: price(10.0), size: 100, side: Side::Bid, liquidity: 0 },
        price(10.0),
        1500,
    );

    assert_eq!(status_of(&oms, id), OrderStatus::Filled);

    let res = oms.cancel_order(id, 2000);
    assert!(res.is_err());
    assert_eq!(res.unwrap_err(), "Order in terminal state, cannot cancel");
}

#[test]
fn test_timeouts() {
    let mut oms = OrderManagementSystem::new();
    let id = oms.place_order(request("key1"), 1000).unwrap();

    assert!(oms.check_timeouts(1200, 500).is_empty());

    let timed_out = oms.check_timeouts(1600, 500);
    assert_eq!(timed_out.len(), 1);
    assert_eq!(timed_out[0], id);
}

#[test]
fn oms_unknown_order_and_distinct_keys() {
    let mut oms = OrderManagementSystem::new();
    assert!(oms.cancel_order(42, 10).is_err());
    let a = oms.place_order(request("a"), 10).unwrap();
    let b = oms.place_order(request("b"), 20).unwrap();
    assert_ne!(a, b);
    assert_eq!(oms.orders.len(), 2);
    assert!(oms.get_order(99).is_none());
}

#[test]
fn oms_cancel_reject_and_status_update() {
    let mut oms = OrderManagementSystem::new();
    let id = oms.place_order(request("k"), 10).unwrap();
    oms.handle_ack(id, "B-1".to_string());
    assert_eq!(status_of(&oms, id), OrderStatus::Live);
    assert_eq!(oms.get_order(id).unwrap().broker_order_id.as_deref(), Some("B-1"));
    oms.cancel_order(id, 20).unwrap();
    oms.mark_cancel_sent(id, 30);
    oms.handle_cancel_reject(id, "too late", 40);
    assert_eq!(status_of(&oms, id), OrderStatus::CancelRejected);
    oms.handle_status(
        OrderStatusData {
            order_id: id,
            status: OrderStatus::Filled,
            filled_qty: 100,
            remaining_qty: 0,
            avg_fill_price: price(10.01),
        },
        50,
    );
    let o = oms.get_order(id).unwrap();
    assert_eq!(o.status, OrderStatus::Filled);
    assert_eq!(o.avg_fill_price, price(10.01));
}

#[test]
fn oms_reconcile_imports_broker_orders() {
    let mut oms = OrderManagementSystem::new();
    let broker_order = Order {
        order_id: 0,
        client_order_id: "ext-1".to_string(),
        broker_order_id: Some("B-77".to_string()),
        symbol_id: SymbolId(4),
        side: Side::Ask,
        qty: 10,
        filled_qty: 0,
        avg_fill_price: price(0.0),
        order_type: OrderType::Limit,
        limit_price: Some(price(3.0)),
        stop_price: None,
        status: OrderStatus::Live,
        created_at: 5,
        updated_at: 5,
    };
    let local = oms.place_order(request("mine"), 1).unwrap();
    let stale = oms.reconcile_state(StateSyncData {
        open_orders: vec![broker_order],
        positions: vec![PositionData { symbol_id: SymbolId(4), qty: -10, avg_cost: price(3.0) }],
    });
    // the local order is unknown to the broker and reported stale
    assert_eq!(stale, vec![local]);
    assert_eq!(oms.orders.len(), 2);
}
