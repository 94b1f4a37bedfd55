use chrono::{TimeZone, Utc};
use penny_scalper::datetime::market_day_boundary;
use penny_scalper::time_buffer::TimeRingBuffer;
use penny_scalper::types::{OrdKey, RejectReason, KEY_ZERO};

fn key(x: f64) -> OrdKey {
    OrdKey::from_bits(x.to_bits())
}

#[test]
fn test_all_reasons_have_keys() {
    let reasons = [
        RejectReason::Blocklist, RejectReason::CorporateActionBlock,
        RejectReason::PriceRange, RejectReason::Liquidity,
        RejectReason::Regime, RejectReason::DailyContext,
        RejectReason::MtfVeto, RejectReason::AntiChase,
        RejectReason::GuardSpread, RejectReason::GuardImbalance,
        RejectReason::GuardStale, RejectReason::GuardSlippage,
        RejectReason::GuardL2Vacuum, RejectReason::GuardFlicker,
        RejectReason::TapeScoreLow, RejectReason::NetNegative,
        RejectReason::Exposure, RejectReason::TapeReversal,
        RejectReason::MonitorOnly, RejectReason::MaxDailyLoss,
        RejectReason::PdtViolation,
    ];
    for reason in &reasons {
        let key = reason.fluent_key();
        assert!(!key.is_empty(), "Empty key for {:?}", reason);
        assert!(key.starts_with("reject-"), "Key must start with reject-: {}", key);
    }
}

#[test]
fn fluent_keys_are_exact() {
    assert_eq!(RejectReason::GuardL2Vacuum.fluent_key(), "reject-guard-l2-vacuum");
    assert_eq!(RejectReason::Unknown.fluent_key(), "reject-unknown");
    assert_eq!(RejectReason::CorporateActionBlock.fluent_key(), "reject-corporate-action-block");
}

#[test]
fn test_capacity_overflow() {
    let max_elements = 3;
    let mut rb = TimeRingBuffer::new(max_elements, 1000);

    rb.push(100, "A");
    rb.push(200, "B");
    rb.push(300, "C");
    assert_eq!(rb.len(), 3);

    rb.push(400, "D");
    assert_eq!(rb.len(), 3);

    let items: Vec<&&str> = rb.iter().collect();
    assert_eq!(items, vec![&"B", &"C", &"D"]);
}

#[test]
fn test_time_eviction() {
    let max_elements = 10;
    let window = 50;
    let mut rb = TimeRingBuffer::new(max_elements, window);

    rb.push(100, 1);
    rb.push(110, 2);
    rb.push(120, 3);
    rb.push(140, 4);

    rb.prune_expired(160);

    let items: Vec<&i32> = rb.iter().collect();
    assert_eq!(items, vec![&2, &3, &4]);

    rb.prune_expired(200);
    assert!(rb.is_empty());
}

#[test]
fn test_empty_behavior() {
    let rb: TimeRingBuffer<i32> = TimeRingBuffer::new(5, 100);
    assert!(rb.is_empty());
    assert_eq!(rb.len(), 0);
    assert!(rb.iter().next().is_none());
}

#[test]
fn ring_buffer_never_exceeds_capacity() {
    let mut rb = TimeRingBuffer::new(4, 1_000_000);
    for i in 0..50u64 {
        rb.push(i, i);
        assert!(rb.len() <= 4);
    }
    let items: Vec<&u64> = rb.iter().collect();
    assert_eq!(items, vec![&46, &47, &48, &49]);
}

#[test]
fn ring_buffer_zero_capacity_holds_nothing() {
    let mut rb = TimeRingBuffer::new(0, 10);
    rb.push(5, 'x');
    assert!(rb.is_empty());
    assert_eq!(rb.len(), 0);
}

#[test]
fn ring_buffer_prune_saturates_at_zero() {
    let mut rb = TimeRingBuffer::new(3, 1000);
    rb.push(0, 1u8);
    rb.push(5, 2u8);
    // current time below the window: the cutoff is 0, nothing is older than 0
    rb.prune_expired(500);
    assert_eq!(rb.len(), 2);
}

#[test]
fn ring_buffer_min_max() {
    let mut rb = TimeRingBuffer::new(5, 1000);
    assert_eq!(rb.min_max(), (None, None));
    rb.push(1, 7i32);
    rb.push(2, -3i32);
    rb.push(3, 12i32);
    rb.push(4, 5i32);
    assert_eq!(rb.min_max(), (Some(-3), Some(12)));
}

#[test]
fn ring_buffer_min_max_on_prices() {
    let mut rb = TimeRingBuffer::new(3, 1000);
    rb.push(1, 2.5f64);
    rb.push(2, 2.4f64);
    rb.push(3, 2.7f64);
    rb.push(4, 2.6f64);
    assert_eq!(rb.min_max(), (Some(2.4), Some(2.7)));
}

#[test]
fn test_2359_utc_maps_to_correct_et_day() {
    let dt = Utc.with_ymd_and_hms(2024, 6, 10, 23, 59, 0).unwrap();
    let ts_micros = dt.timestamp() as u64 * 1_000_000;

    let et_ordinal = market_day_boundary(ts_micros);
    let epoch = chrono::NaiveDate::from_ymd_opt(1970, 1, 1).unwrap();
    let expected = chrono::NaiveDate::from_ymd_opt(2024, 6, 10)
        .unwrap()
        .signed_duration_since(epoch)
        .num_days() as u32;
    assert_eq!(et_ordinal, expected);
}

#[test]
fn test_0001_utc_maps_to_previous_et_day() {
    let dt = Utc.with_ymd_and_hms(2024, 6, 11, 0, 1, 0).unwrap();
    let ts_micros = dt.timestamp() as u64 * 1_000_000;

    let et_ordinal = market_day_boundary(ts_micros);
    let epoch = chrono::NaiveDate::from_ymd_opt(1970, 1, 1).unwrap();
    let expected = chrono::NaiveDate::from_ymd_opt(2024, 6, 10)
        .unwrap()
        .signed_duration_since(epoch)
        .num_days() as u32;
    assert_eq!(et_ordinal, expected);
}

#[test]
fn test_dst_spring_forward() {
    let dt1 = Utc.with_ymd_and_hms(2024, 3, 10, 6, 59, 0).unwrap();
    let ts_micros1 = dt1.timestamp() as u64 * 1_000_000;
    let et1 = market_day_boundary(ts_micros1);

    let dt2 = Utc.with_ymd_and_hms(2024, 3, 10, 7, 1, 0).unwrap();
    let ts_micros2 = dt2.timestamp() as u64 * 1_000_000;
    let et2 = market_day_boundary(ts_micros2);

    assert_eq!(et1, et2);

    let epoch = chrono::NaiveDate::from_ymd_opt(1970, 1, 1).unwrap();
    let expected = chrono::NaiveDate::from_ymd_opt(2024, 3, 10)
        .unwrap()
        .signed_duration_since(epoch)
        .num_days() as u32;
    assert_eq!(et1, expected);
}

#[test]
fn test_dst_fall_back() {
    let dt1 = Utc.with_ymd_and_hms(2024, 11, 3, 5, 59, 0).unwrap();
    let ts_micros1 = dt1.timestamp() as u64 * 1_000_000;
    let et1 = market_day_boundary(ts_micros1);

    let dt2 = Utc.with_ymd_and_hms(2024, 11, 3, 6, 1, 0).unwrap();
    let ts_micros2 = dt2.timestamp() as u64 * 1_000_000;
    let et2 = market_day_boundary(ts_micros2);

    assert_eq!(et1, et2);

    let epoch = chrono::NaiveDate::from_ymd_opt(1970, 1, 1).unwrap();
    let expected = chrono::NaiveDate::from_ymd_opt(2024, 11, 3)
        .unwrap()
        .signed_duration_since(epoch)
        .num_days() as u32;
    assert_eq!(et1, expected);
}

#[test]
fn market_day_of_epoch_start_is_previous_day() {
    // 1970-01-01 00:00 UTC is still 1969-12-31 in New York: day -1, kept as u32
    assert_eq!(market_day_boundary(0), u32::MAX);
    // noon UTC on the first day is day 0
    assert_eq!(market_day_boundary(12 * 3600 * 1_000_000), 0);
}

#[test]
fn keys_order_like_doubles() {
    let xs = [-1e9, -2.5, -0.1, 0.0, 1e-300, 0.5, 1.0, 2.5, 1e9];
    for i in 0..xs.len() {
        for j in 0..xs.len() {
            assert_eq!(key(xs[i]).lt(key(xs[j])), xs[i] < xs[j]);
            assert_eq!(key(xs[i]).le(key(xs[j])), xs[i] <= xs[j]);
        }
    }
    assert_eq!(key(-0.0), key(0.0));
    assert_eq!(key(0.0).0, KEY_ZERO);
    assert!(!key(f64::NAN).lt(key(1.0)));
    assert!(!key(f64::NAN).ge(key(1.0)));
    assert_eq!(f64::from_bits(key(2.75).to_bits()), 2.75);
    assert_eq!(f64::from_bits(key(-2.75).neg().to_bits()), 2.75);
}
